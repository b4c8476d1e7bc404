use gui_core_00::errors::GeneralError;
use gui_core_00::geometry::point2d::Point2D;
use gui_core_00::geometry::{texture_extent, Color, Quad, Shape, Texture, Triangle, Vertex2D, UV_ONE};

fn corners() -> (Vertex2D, Vertex2D, Vertex2D) {
    (
        Vertex2D::new(100, -50, UV_ONE, 0),
        Vertex2D::new(150, -50, UV_ONE, 0),
        Vertex2D::new(100, 50, UV_ONE, 0),
    )
}

#[test]
fn color_accepts_channel_bounds() {
    let c = Color::new(0, 128, 255, 1).unwrap();
    assert_eq!(c.get_rgb_value(), [0, 128, 255, 1]);
    let white = Color::new(255, 255, 255, 1).unwrap();
    assert_eq!(white.get_rgb_value(), [255, 255, 255, 1]);
}

#[test]
fn color_returns_components_in_order() {
    for r in [0, 1, 77, 254, 255] {
        for g in [0, 13, 255] {
            for b in [0, 200, 255] {
                let c = Color::new(r, g, b, 1).unwrap();
                assert_eq!(c.get_rgb_value(), [r, g, b, 1]);
            }
        }
    }
}

#[test]
fn color_rejects_out_of_range_channels() {
    assert!(Color::new(256, 0, 0, 1).is_none());
    assert!(Color::new(-1, 0, 0, 1).is_none());
    assert!(Color::new(0, 256, 0, 1).is_none());
    assert!(Color::new(0, -1, 0, 1).is_none());
    assert!(Color::new(0, 0, 256, 1).is_none());
    assert!(Color::new(0, 0, -1, 1).is_none());
}

#[test]
fn color_leaves_alpha_unchecked() {
    let c = Color::new(10, 20, 30, -5).unwrap();
    assert_eq!(c.get_rgb_value(), [10, 20, 30, -5]);
}

#[test]
fn black_is_opaque_black() {
    assert_eq!(Color::black().get_rgb_value(), [0, 0, 0, 1]);
}

#[test]
fn triangle_keeps_vertices_in_order() {
    let (v1, v2, v3) = corners();
    let plain = Triangle::new(v1, v2, v3, None, None);
    assert_eq!(plain.vertices(), vec![v1, v2, v3]);
    assert!(plain.color().is_none());
    assert!(plain.texture().is_none());

    let color = Color::new(255, 255, 255, 1);
    let dressed = Triangle::new(v1, v2, v3, color, Some(Texture { id: 7 }));
    assert_eq!(dressed.vertices(), vec![v1, v2, v3]);
    assert_eq!(dressed.color().unwrap().get_rgb_value(), [255, 255, 255, 1]);
    assert_eq!(dressed.texture().unwrap().id, 7);
    assert_eq!(dressed.indices(), vec![0, 1, 2]);
}

#[test]
fn quad_is_two_triangles() {
    let q = Quad::new(
        Vertex2D::new(50, -50, UV_ONE, UV_ONE),
        Vertex2D::new(-50, -50, 0, UV_ONE),
        Vertex2D::new(-50, 50, 0, 0),
        Vertex2D::new(50, 50, UV_ONE, 0),
        None,
        None,
    );
    assert_eq!(q.vertices().len(), 4);
    assert_eq!(q.vertices()[3], Vertex2D::new(50, 50, UV_ONE, 0));
    assert_eq!(q.indices(), vec![0, 1, 2, 2, 3, 0]);
}

#[test]
fn point_needs_positive_coordinates() {
    assert!(Point2D::new(1, 1).is_ok());
    assert_eq!(Point2D::new(0, 5), Err(GeneralError::StructInit));
    assert_eq!(Point2D::new(5, -2), Err(GeneralError::StructInit));
    assert!(Point2D::new(3, 4).unwrap().draw().is_ok());
}

#[test]
fn texture_extent_checks_size_and_bytes() {
    assert_eq!(texture_extent(2, 3, &vec![0u8; 24]), Some((2, 3)));
    assert_eq!(texture_extent(2, 3, &vec![0u8; 23]), None);
    assert_eq!(texture_extent(65536, 1, &vec![0u8; 4 * 65536]), None);
    assert_eq!(texture_extent(0, 0, &vec![]), Some((0, 0)));
}
