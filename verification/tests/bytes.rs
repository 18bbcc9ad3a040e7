use moon_world::bytes::{uniform_bytes, vec4_bytes, vertex_bytes, words_to_bytes};
use moon_world::math::{wgpu_offset_m, Mat4, Vec4};
use moon_world::structs::{Point3Input, Point3InputArray};

fn ne(words: &[u32]) -> Vec<u8> {
    words.iter().flat_map(|w| w.to_ne_bytes()).collect()
}

#[test]
fn words_become_four_bytes_each_in_machine_order() {
    assert_eq!(words_to_bytes(&vec![]), Vec::<u8>::new());
    assert_eq!(words_to_bytes(&vec![0x0403_0201]), 0x0403_0201u32.to_ne_bytes().to_vec());
    let words = vec![1, 0x8000_0000, 0xDEAD_BEEF, u32::MAX, 0];
    let bytes = words_to_bytes(&words);
    assert_eq!(bytes.len(), 20);
    assert_eq!(bytes, ne(&words));
    let le: Vec<u8> = words.iter().flat_map(|w| w.to_le_bytes()).collect();
    let be: Vec<u8> = words.iter().flat_map(|w| w.to_be_bytes()).collect();
    assert!(bytes == le || bytes == be);
}

#[test]
fn matrix_is_uploaded_column_by_column() {
    let bytes = uniform_bytes(&wgpu_offset_m());
    assert_eq!(bytes.len(), 64);
    let floats: Vec<f32> = bytes
        .chunks(4)
        .map(|c| f32::from_ne_bytes([c[0], c[1], c[2], c[3]]))
        .collect();
    assert_eq!(
        floats,
        vec![1.0, 0.0, 0.0, 0.0, 0.0, 1.0, 0.0, 0.0, 0.0, 0.0, 0.5, 0.0, 0.0, 0.0, 0.5, 1.0]
    );
    let m = nalgebra::Matrix4::<f32>::new_translation(&nalgebra::Vector3::new(1.0, 2.0, 3.0));
    let mut w = [0u32; 16];
    for (i, x) in m.as_slice().iter().enumerate() {
        w[i] = x.to_bits();
    }
    let expected: &[u8] = bytemuck::cast_slice(m.as_slice());
    assert_eq!(uniform_bytes(&Mat4::from_words(&w)), expected.to_vec());
}

#[test]
fn vector_is_sixteen_bytes() {
    let v = Vec4::new(1.0f32.to_bits(), 0.5f32.to_bits(), 0.25f32.to_bits(), 1.0f32.to_bits());
    let expected: &[u8] = bytemuck::cast_slice(&[1.0f32, 0.5, 0.25, 1.0]);
    assert_eq!(vec4_bytes(&v), expected.to_vec());
}

#[test]
fn vertices_are_uploaded_one_after_another() {
    let quad = Point3InputArray::quad();
    let bytes = vertex_bytes(quad.vertex_v());
    assert_eq!(bytes.len(), 6 * 48);
    let floats: Vec<f32> = bytes
        .chunks(4)
        .map(|c| f32::from_ne_bytes([c[0], c[1], c[2], c[3]]))
        .collect();
    assert_eq!(
        floats[..12],
        [-1.0, 1.0, 0.0, 1.0, 1.0, 1.0, 1.0, 1.0, 0.0, 0.0, 1.0, 0.0]
    );
    assert_eq!(
        floats[60..],
        [1.0, 1.0, 0.0, 1.0, 1.0, 1.0, 1.0, 1.0, 0.0, 0.0, 1.0, 0.0]
    );
    assert!(vertex_bytes(&[]).is_empty());
    let v = Point3Input {
        position: Vec4::new(1, 2, 3, 4),
        color: Vec4::new(5, 6, 7, 8),
        normal: Vec4::new(9, 10, 11, 12),
    };
    assert_eq!(vertex_bytes(&[v]), ne(&[1, 2, 3, 4, 5, 6, 7, 8, 9, 10, 11, 12]));
}
