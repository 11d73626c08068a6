use glframe::layout::{Attribute, LayoutError, VertexLayout, MAX_VERTEX_FLOATS};
use glframe::mesh::{DrawCall, Mesh, MeshError};

fn words(floats: &[f32]) -> Vec<u32> {
    floats.iter().map(|f| f.to_bits()).collect()
}

fn quad() -> Mesh {
    let layout = VertexLayout::packed(&[3]).unwrap();
    let vertices = words(&[0.5, 0.5, 0.0, 0.5, -0.5, 0.0, -0.5, -0.5, 0.0, -0.5, 0.5, 0.0]);
    Mesh::new(layout, vertices, Some(vec![0, 1, 3, 1, 2, 3])).unwrap()
}

#[test]
fn indexed_quad_draws_six_references() {
    let mesh = quad();
    assert_eq!(mesh.vertex_count(), 4);
    assert_eq!(mesh.draw_call(), DrawCall::Elements { count: 6 });
    assert_eq!(mesh.triangle_count(), 2);
    assert_eq!(mesh.triangle(0), Some([0, 1, 3]));
    assert_eq!(mesh.triangle(1), Some([1, 2, 3]));
    assert_eq!(mesh.triangle(2), None);
    assert_eq!(mesh.index_bytes(), 24);
    assert_eq!(mesh.indices(), Some(&[0u32, 1, 3, 1, 2, 3][..]));
}

#[test]
fn indexed_quad_covers_the_unit_quad() {
    let mesh = quad();
    let mut area = 0.0f32;
    for k in 0..mesh.triangle_count() {
        let corners = mesh.triangle(k).unwrap();
        let p: Vec<[f32; 2]> = corners
            .iter()
            .map(|&v| {
                let w = mesh.attribute(v, 0).unwrap();
                [f32::from_bits(w[0]), f32::from_bits(w[1])]
            })
            .collect();
        let twice = (p[1][0] - p[0][0]) * (p[2][1] - p[0][1])
            - (p[2][0] - p[0][0]) * (p[1][1] - p[0][1]);
        area += twice.abs() / 2.0;
    }
    assert_eq!(area, 1.0);
}

#[test]
fn buffer_size_is_vertices_times_stride() {
    let layout = VertexLayout::packed(&[3, 2]).unwrap();
    assert_eq!(layout.stride(), 20);
    assert_eq!(layout.floats_per_vertex(), 5);
    assert_eq!(layout.buffer_bytes(36), Some(720));
    assert_eq!(layout.buffer_bytes(0), Some(0));
    assert_eq!(layout.buffer_bytes(usize::MAX), None);
    assert_eq!(layout.buffer_bytes(isize::MAX as usize / 20), Some(isize::MAX as usize / 20 * 20));
    assert_eq!(layout.buffer_bytes(isize::MAX as usize / 20 + 1), None);
    let cube = Mesh::new(layout, vec![0u32; 36 * 5], None).unwrap();
    assert_eq!(cube.vertex_count(), 36);
    assert_eq!(cube.vertex_bytes(), 720);
    assert_eq!(cube.index_bytes(), 0);
    assert_eq!(cube.draw_call(), DrawCall::Arrays { count: 36 });
    assert_eq!(cube.triangle_count(), 12);
    assert_eq!(cube.triangle(11), Some([33, 34, 35]));
    assert_eq!(cube.triangle(12), None);
    assert_eq!(cube.indices(), None);
    assert_eq!(cube.words().len(), 180);
    assert_eq!(cube.layout().stride(), 20);
}

#[test]
fn packed_layout_of_position_and_texture() {
    let layout = VertexLayout::packed(&[3, 2]).unwrap();
    assert_eq!(
        layout.attributes(),
        &[
            Attribute { slot: 0, components: 3, stride: 20, offset: 0 },
            Attribute { slot: 1, components: 2, stride: 20, offset: 12 },
        ][..]
    );
    let layout = VertexLayout::packed(&[3, 3, 2]).unwrap();
    assert_eq!(
        layout.attributes(),
        &[
            Attribute { slot: 0, components: 3, stride: 32, offset: 0 },
            Attribute { slot: 1, components: 3, stride: 32, offset: 12 },
            Attribute { slot: 2, components: 2, stride: 32, offset: 24 },
        ][..]
    );
}

#[test]
fn layout_errors() {
    assert_eq!(VertexLayout::packed(&[]).err(), Some(LayoutError::Empty));
    assert_eq!(
        VertexLayout::packed(&[3, 0, 5]).err(),
        Some(LayoutError::BadComponentCount { slot: 1 })
    );
    assert_eq!(
        VertexLayout::packed(&[4, 4, 5]).err(),
        Some(LayoutError::BadComponentCount { slot: 2 })
    );
    assert!(VertexLayout::packed(&[1, 2, 3, 4]).is_ok());
}

#[test]
fn layout_too_large() {
    assert_eq!(MAX_VERTEX_FLOATS, 0x1fff_ffff);
    let over = vec![4u32; MAX_VERTEX_FLOATS as usize / 4 + 1];
    assert_eq!(VertexLayout::packed(&over).err(), Some(LayoutError::TooLarge));
}

#[test]
fn mesh_errors() {
    let layout = || VertexLayout::packed(&[3]).unwrap();
    assert_eq!(Mesh::new(layout(), vec![0; 4], None).err(), Some(MeshError::PartialVertex));
    assert_eq!(
        Mesh::new(layout(), vec![0; 6], Some(vec![0, 1, 2, 1])).err(),
        Some(MeshError::IndexOutOfRange { position: 2 })
    );
    assert_eq!(
        Mesh::new(layout(), vec![0; 5], Some(vec![9])).err(),
        Some(MeshError::PartialVertex)
    );
    assert!(Mesh::new(layout(), Vec::new(), None).is_ok());
    assert_eq!(
        Mesh::new(layout(), Vec::new(), Some(vec![0])).err(),
        Some(MeshError::IndexOutOfRange { position: 0 })
    );
    let empty = Mesh::new(layout(), Vec::new(), Some(Vec::new())).unwrap();
    assert_eq!(empty.draw_call(), DrawCall::Elements { count: 0 });
    assert_eq!(empty.triangle(0), None);
}

#[test]
fn attribute_of_a_vertex() {
    let layout = VertexLayout::packed(&[3, 2]).unwrap();
    let data: Vec<u32> = (0..15).collect();
    let mesh = Mesh::new(layout, data, None).unwrap();
    assert_eq!(mesh.attribute(0, 0), Some(vec![0, 1, 2]));
    assert_eq!(mesh.attribute(0, 1), Some(vec![3, 4]));
    assert_eq!(mesh.attribute(2, 0), Some(vec![10, 11, 12]));
    assert_eq!(mesh.attribute(2, 1), Some(vec![13, 14]));
    assert_eq!(mesh.attribute(3, 0), None);
    assert_eq!(mesh.attribute(0, 2), None);
    assert_eq!(mesh.triangle(0), Some([0, 1, 2]));
    assert_eq!(mesh.triangle(1), None);
}
