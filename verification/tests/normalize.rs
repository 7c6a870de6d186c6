use svgnorm::color::{pack_rgba, Color};
use svgnorm::convert::normalize;
use svgnorm::geom::Transform;
use svgnorm::model::{
    Attrs, ByteAttr, Config, Document, ElemKind, Element, FatalError, Length, PaintRef, Units,
};
use svgnorm::path::{simplify_segments, PathSegment};
use svgnorm::tree::{IdPlace, Node, NodeKind, Paint};

fn attrs() -> Attrs {
    Attrs {
        x: Length::Missing,
        y: Length::Missing,
        width: Length::Missing,
        height: Length::Missing,
        x2: Length::Missing,
        y2: Length::Missing,
        cx: Length::Missing,
        cy: Length::Missing,
        r: Length::Missing,
        points: vec![],
        d: vec![],
        transform: Transform { tx: 0, ty: 0 },
        fill: None,
        stroke: None,
        fill_opacity: ByteAttr::Missing,
        stroke_opacity: ByteAttr::Missing,
        opacity: ByteAttr::Missing,
        fill_rule: None,
        stroke_width: Length::Missing,
        linecap: None,
        linejoin: None,
        miterlimit: Length::Missing,
        dasharray: vec![],
        dashoffset: 0,
        font_size: Length::Missing,
        visibility: None,
        clip_path: None,
        mask: None,
        filter: None,
        units: Units::UserSpace,
        offset: 0,
        stop_color: Color { red: 0, green: 0, blue: 0 },
        stop_opacity: ByteAttr::Missing,
        text: vec![],
        image_data: vec![],
    }
}

fn elem(kind: ElemKind, id: Option<u64>, attrs: Attrs, children: Vec<Element>) -> Element {
    Element { kind, id, attrs, children }
}

fn rect(w: i64, h: i64) -> Element {
    let mut a = attrs();
    a.width = Length::Abs(w);
    a.height = Length::Abs(h);
    elem(ElemKind::Rect, None, a, vec![])
}

fn doc(children: Vec<Element>) -> Document {
    Document { root: elem(ElemKind::Svg, None, attrs(), children) }
}

fn cfg() -> Config {
    Config { keep_named_groups: false, quality: 50 }
}

fn rect_segs(w: i64, h: i64) -> Vec<PathSegment> {
    vec![
        PathSegment::MoveTo { x: 0, y: 0 },
        PathSegment::LineTo { x: w, y: 0 },
        PathSegment::LineTo { x: w, y: h },
        PathSegment::LineTo { x: 0, y: h },
        PathSegment::ClosePath,
    ]
}

fn path_segments(n: &Node) -> Vec<PathSegment> {
    match &n.kind {
        NodeKind::Path(p) => p.segments.clone(),
        _ => panic!("expected a path node"),
    }
}

#[test]
fn close_runs_collapse() {
    let raw = vec![
        PathSegment::MoveTo { x: 10, y: 20 },
        PathSegment::LineTo { x: 10, y: 30 },
        PathSegment::ClosePath,
        PathSegment::ClosePath,
        PathSegment::ClosePath,
    ];
    let simple = simplify_segments(&raw);
    assert_eq!(
        simple,
        vec![
            PathSegment::MoveTo { x: 10, y: 20 },
            PathSegment::LineTo { x: 10, y: 30 },
            PathSegment::ClosePath,
        ]
    );
    let again = simplify_segments(&simple);
    assert_eq!(again, simple);
}

#[test]
fn path_data_without_moveto_is_dropped() {
    let raw = vec![PathSegment::LineTo { x: 1, y: 2 }];
    assert_eq!(simplify_segments(&raw), vec![]);
}

#[test]
fn group_folding_rect_under_nested_groups() {
    let mut inner = rect(30, 40);
    for _ in 0..4 {
        inner = elem(ElemKind::Group, None, attrs(), vec![inner]);
    }
    let t = normalize(&doc(vec![inner]), &cfg()).unwrap();
    assert_eq!(t.children.len(), 1);
    assert_eq!(path_segments(&t.children[0]), rect_segs(30, 40));
    assert!(t.defs.is_empty());
}

#[test]
fn id_transfer_to_single_child() {
    let g = elem(ElemKind::Group, Some(5), attrs(), vec![rect(10, 10)]);
    let t = normalize(&doc(vec![g]), &cfg()).unwrap();
    assert_eq!(t.children.len(), 1);
    assert_eq!(t.children[0].id, Some(5));
    assert_eq!(t.locate_id(5), IdPlace::Renderable);
}

#[test]
fn empty_named_group_is_dropped_either_way() {
    for keep in [false, true] {
        let g = elem(ElemKind::Group, Some(5), attrs(), vec![]);
        let c = Config { keep_named_groups: keep, quality: 50 };
        let t = normalize(&doc(vec![g]), &c).unwrap();
        assert!(t.children.is_empty());
    }
}

#[test]
fn named_group_kept_when_configured() {
    let g = elem(ElemKind::Group, Some(5), attrs(), vec![rect(10, 10)]);
    let c = Config { keep_named_groups: true, quality: 50 };
    let t = normalize(&doc(vec![g]), &c).unwrap();
    assert_eq!(t.children.len(), 1);
    assert!(matches!(t.children[0].kind, NodeKind::Group(_)));
    assert_eq!(t.children[0].id, Some(5));
}

#[test]
fn explicit_neutral_opacity_unwraps_regardless() {
    let mut a = attrs();
    a.opacity = ByteAttr::Val(255);
    let g = elem(ElemKind::Group, None, a, vec![rect(1, 2), rect(3, 4)]);
    let c = Config { keep_named_groups: true, quality: 50 };
    let t = normalize(&doc(vec![g]), &c).unwrap();
    assert_eq!(t.children.len(), 2);
    assert_eq!(path_segments(&t.children[0]), rect_segs(1, 2));
    assert_eq!(path_segments(&t.children[1]), rect_segs(3, 4));
}

#[test]
fn non_neutral_opacity_makes_boundary_group() {
    let mut a = attrs();
    a.opacity = ByteAttr::Val(128);
    let g = elem(ElemKind::Group, None, a, vec![rect(1, 2), rect(3, 4)]);
    let t = normalize(&doc(vec![g]), &cfg()).unwrap();
    assert_eq!(t.children.len(), 1);
    match &t.children[0].kind {
        NodeKind::Group(gd) => {
            assert_eq!(gd.opacity, 128);
            assert_eq!(gd.children.len(), 2);
        }
        _ => panic!("expected a group"),
    }
}

#[test]
fn clip_path_without_usable_geometry_omits_referencing_element() {
    let clip = elem(
        ElemKind::ClipPath,
        Some(9),
        attrs(),
        vec![elem(ElemKind::Unsupported, None, attrs(), vec![])],
    );
    let defs = elem(ElemKind::Defs, None, attrs(), vec![clip]);
    let mut ra = attrs();
    ra.width = Length::Abs(10);
    ra.height = Length::Abs(10);
    ra.clip_path = Some(9);
    let r = elem(ElemKind::Rect, None, ra, vec![]);
    let t = normalize(&doc(vec![defs, r]), &cfg()).unwrap();
    assert!(t.children.is_empty());
}

#[test]
fn usable_clip_wraps_in_boundary_group() {
    let clip = elem(ElemKind::ClipPath, Some(9), attrs(), vec![rect(5, 5)]);
    let defs = elem(ElemKind::Defs, None, attrs(), vec![clip]);
    let mut ra = attrs();
    ra.width = Length::Abs(10);
    ra.height = Length::Abs(10);
    ra.clip_path = Some(9);
    let r = elem(ElemKind::Rect, None, ra, vec![]);
    let t = normalize(&doc(vec![defs, r]), &cfg()).unwrap();
    assert_eq!(t.children.len(), 1);
    match &t.children[0].kind {
        NodeKind::Group(gd) => {
            assert_eq!(gd.clip, Some(0));
            assert_eq!(gd.children.len(), 1);
        }
        _ => panic!("expected a boundary group"),
    }
    assert_eq!(t.defs.len(), 1);
}

#[test]
fn absent_pattern_forces_hidden_fill_none() {
    let pat = elem(ElemKind::Pattern, Some(7), attrs(), vec![]);
    let defs = elem(ElemKind::Defs, None, attrs(), vec![pat]);
    let mut ra = attrs();
    ra.width = Length::Abs(10);
    ra.height = Length::Abs(10);
    ra.fill = Some(PaintRef::Ref(7));
    let r = elem(ElemKind::Rect, Some(1), ra, vec![]);
    let t = normalize(&doc(vec![defs, r]), &cfg()).unwrap();
    assert_eq!(t.children.len(), 1);
    let n = &t.children[0];
    assert!(n.fill.is_none());
    assert!(!n.visible);
    assert_eq!(n.id, Some(1));
    assert_eq!(path_segments(n), rect_segs(10, 10));
}

#[test]
fn self_referencing_pattern_degrades_to_hidden() {
    let mut tile = attrs();
    tile.width = Length::Abs(4);
    tile.height = Length::Abs(4);
    tile.fill = Some(PaintRef::Ref(7));
    let inner = elem(ElemKind::Rect, None, tile, vec![]);
    let mut pa = attrs();
    pa.width = Length::Abs(8);
    pa.height = Length::Abs(8);
    let pat = elem(ElemKind::Pattern, Some(7), pa, vec![inner]);
    let defs = elem(ElemKind::Defs, None, attrs(), vec![pat]);
    let mut ra = attrs();
    ra.width = Length::Abs(10);
    ra.height = Length::Abs(10);
    ra.fill = Some(PaintRef::Ref(7));
    let r = elem(ElemKind::Rect, None, ra, vec![]);
    let t = normalize(&doc(vec![defs, r]), &cfg()).unwrap();
    assert_eq!(t.children.len(), 1);
    let n = &t.children[0];
    assert!(n.visible);
    match n.fill.as_ref().map(|f| f.paint) {
        Some(Paint::PatternRef(0)) => {}
        other => panic!("expected a pattern reference, got {other:?}"),
    }
    assert_eq!(t.defs.len(), 1);
}

#[test]
fn gradient_without_stops_resolves_to_no_paint() {
    let grad = elem(ElemKind::LinearGradient, Some(3), attrs(), vec![]);
    let defs = elem(ElemKind::Defs, None, attrs(), vec![grad]);
    let mut ra = attrs();
    ra.width = Length::Abs(10);
    ra.height = Length::Abs(10);
    ra.fill = Some(PaintRef::Ref(3));
    let r = elem(ElemKind::Rect, None, ra, vec![]);
    let t = normalize(&doc(vec![defs, r]), &cfg()).unwrap();
    assert_eq!(t.children.len(), 1);
    assert!(t.children[0].fill.is_none());
    assert!(t.children[0].visible);
    assert!(t.defs.is_empty());
}

#[test]
fn gradient_memoized_once_for_two_uses() {
    let mut sa = attrs();
    sa.offset = 0;
    sa.stop_color = Color { red: 255, green: 0, blue: 0 };
    let stop = elem(ElemKind::Stop, None, sa, vec![]);
    let grad = elem(ElemKind::LinearGradient, Some(3), attrs(), vec![stop]);
    let defs = elem(ElemKind::Defs, None, attrs(), vec![grad]);
    let mut ra = attrs();
    ra.width = Length::Abs(10);
    ra.height = Length::Abs(10);
    ra.fill = Some(PaintRef::Ref(3));
    let mut rb = ra.clone();
    rb.width = Length::Abs(20);
    let r1 = elem(ElemKind::Rect, None, ra, vec![]);
    let r2 = elem(ElemKind::Rect, None, rb, vec![]);
    let t = normalize(&doc(vec![defs, r1, r2]), &cfg()).unwrap();
    assert_eq!(t.defs.len(), 1);
    assert_eq!(t.children[0].fill.as_ref().unwrap().paint, Paint::LinearGradientRef(0));
    assert_eq!(t.children[1].fill.as_ref().unwrap().paint, Paint::LinearGradientRef(0));
}

#[test]
fn fatal_unsupported_root() {
    let d = Document { root: elem(ElemKind::Group, None, attrs(), vec![]) };
    assert_eq!(normalize(&d, &cfg()), Err(FatalError::UnsupportedRoot));
}

#[test]
fn fatal_invalid_config() {
    let c = Config { keep_named_groups: false, quality: 0 };
    assert_eq!(normalize(&doc(vec![]), &c), Err(FatalError::InvalidConfig));
}

#[test]
fn fatal_duplicate_ids() {
    let a = elem(ElemKind::Group, Some(4), attrs(), vec![rect(1, 1)]);
    let b = elem(ElemKind::Group, Some(4), attrs(), vec![rect(2, 2)]);
    assert_eq!(normalize(&doc(vec![a, b]), &cfg()), Err(FatalError::MalformedDocument));
}

#[test]
fn empty_document_yields_empty_tree_not_error() {
    let t = normalize(&doc(vec![]), &cfg()).unwrap();
    assert!(t.defs.is_empty());
    assert!(t.children.is_empty());
}

#[test]
fn renormalizing_own_output_is_fixed_point() {
    // The canonical output of the fold test re-entered as a document:
    // one path element with absolute data, defaults explicit.
    let mut inner = rect(30, 40);
    for _ in 0..2 {
        inner = elem(ElemKind::Group, None, attrs(), vec![inner]);
    }
    let t1 = normalize(&doc(vec![inner]), &cfg()).unwrap();
    let mut pa = attrs();
    pa.d = path_segments(&t1.children[0]);
    let p = elem(ElemKind::PathElem, None, pa, vec![]);
    let t2 = normalize(&doc(vec![p]), &cfg()).unwrap();
    assert_eq!(t1, t2);
}

#[test]
fn pack_rgba_matches_byte_layout() {
    let c = Color { red: 0x12, green: 0x34, blue: 0x56 };
    assert_eq!(pack_rgba(c, 0xFF), 0x123456FF);
    assert_eq!(pack_rgba(Color { red: 0, green: 0, blue: 0 }, 0), 0);
}

#[test]
fn invalid_numeric_attribute_falls_back_to_default() {
    let mut ra = attrs();
    ra.width = Length::Abs(10);
    ra.height = Length::Abs(10);
    ra.x = Length::Invalid;
    let r = elem(ElemKind::Rect, None, ra, vec![]);
    let t = normalize(&doc(vec![r]), &cfg()).unwrap();
    assert_eq!(path_segments(&t.children[0]), rect_segs(10, 10));
}

#[test]
fn percentage_resolves_against_viewport() {
    let mut root_attrs = attrs();
    root_attrs.width = Length::Abs(200);
    root_attrs.height = Length::Abs(100);
    let mut ra = attrs();
    ra.width = Length::Pct(50);
    ra.height = Length::Abs(10);
    let r = elem(ElemKind::Rect, None, ra, vec![]);
    let d = Document { root: elem(ElemKind::Svg, None, root_attrs, vec![r]) };
    let t = normalize(&d, &cfg()).unwrap();
    assert_eq!(path_segments(&t.children[0]), rect_segs(100, 10));
}

#[test]
fn transform_folds_into_coordinates() {
    let mut ga = attrs();
    ga.transform = Transform { tx: 7, ty: 9 };
    let g = elem(ElemKind::Group, None, ga, vec![rect(2, 3)]);
    let t = normalize(&doc(vec![g]), &cfg()).unwrap();
    assert_eq!(
        path_segments(&t.children[0]),
        vec![
            PathSegment::MoveTo { x: 7, y: 9 },
            PathSegment::LineTo { x: 9, y: 9 },
            PathSegment::LineTo { x: 9, y: 12 },
            PathSegment::LineTo { x: 7, y: 12 },
            PathSegment::ClosePath,
        ]
    );
    assert_eq!(t.children[0].transform, Transform { tx: 0, ty: 0 });
}

#[test]
fn hidden_visibility_inherits() {
    let mut ga = attrs();
    ga.visibility = Some(false);
    let g = elem(ElemKind::Group, None, ga, vec![rect(1, 1)]);
    let t = normalize(&doc(vec![g]), &cfg()).unwrap();
    assert!(!t.children[0].visible);
}

#[test]
fn bounding_box_query_on_path() {
    let t = normalize(&doc(vec![rect(30, 40)]), &cfg()).unwrap();
    let bb = svgnorm::tree::node_bbox(&t.children[0]).unwrap();
    assert_eq!((bb.x1, bb.y1, bb.x2, bb.y2), (0, 0, 30, 40));
}

#[test]
fn append_root_child_keeps_defs() {
    let mut t = normalize(&doc(vec![rect(1, 1)]), &cfg()).unwrap();
    let n = Node {
        id: Some(99),
        transform: Transform { tx: 0, ty: 0 },
        visible: true,
        fill: None,
        stroke: None,
        kind: NodeKind::Path(svgnorm::tree::PathData { segments: rect_segs(1, 1) }),
    };
    t.append_root_child(n);
    assert_eq!(t.children.len(), 2);
    assert_eq!(t.locate_id(99), IdPlace::Renderable);
    assert_eq!(t.locate_id(123), IdPlace::Absent);
}
