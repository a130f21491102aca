use vct::types::matrix::{mat2x2, mat2x3, mat4x4};
use vct::types::vector::{vec2, vec2i, vec3, vec3u, vec4};
use vct::types::{ToWGSL, WGSL};

fn name_of(wgsl: WGSL) -> String {
    match wgsl {
        WGSL::Ty(name) => name,
        WGSL::Struct { .. } => panic!("a named type was expected"),
    }
}

#[test]
fn vectors_keep_their_components() {
    let v: vec2<i32> = [1, -2].into();
    assert_eq!(v.components(), [1, -2]);
    let v: vec3<u32> = vec3::from([1, 2, 3]);
    assert_eq!(v.components(), [1, 2, 3]);
    let v: vec4<i32> = vec4::from([4, 3, 2, 1]);
    assert_eq!(v.components(), [4, 3, 2, 1]);
    let a: vec2i = vec2::from([1, 2]);
    let b: vec2i = vec2::from([1, 3]);
    assert!(a < b);
    assert_eq!(a, vec2::from([1, 2]));
    let u: vec3u = [7, 8, 9].into();
    assert_eq!(u.components(), [7, 8, 9]);
}

#[test]
fn matrices_keep_their_elements() {
    let m = mat2x2::new([[1u32, 2], [3, 4]]);
    assert_eq!(m.elements(), [[1, 2], [3, 4]]);
    assert_eq!(m, mat2x2::new([[1, 2], [3, 4]]));
    let m = mat2x3::new([[1i32, 2], [3, 4], [5, 6]]);
    assert_eq!(m.elements()[2], [5, 6]);
    let m = mat4x4::new([[7u8; 4]; 4]);
    assert_eq!(m.elements(), [[7; 4]; 4]);
}

#[test]
fn types_name_their_counterparts() {
    assert_eq!(name_of(<i32 as ToWGSL>::to_wgsl()), "i32");
    assert_eq!(name_of(<u32 as ToWGSL>::to_wgsl()), "u32");
    assert_eq!(name_of(<vec2<i32> as ToWGSL>::to_wgsl()), "vec2<i32>");
    assert_eq!(name_of(<vec3<i32> as ToWGSL>::to_wgsl()), "vec3<i32>");
    assert_eq!(name_of(<vec4<i32> as ToWGSL>::to_wgsl()), "vec4<i32>");
    assert_eq!(name_of(<vec2<u32> as ToWGSL>::to_wgsl()), "vec2<u32>");
    assert_eq!(name_of(<vec3<u32> as ToWGSL>::to_wgsl()), "vec3<u32>");
    assert_eq!(name_of(<vec4<u32> as ToWGSL>::to_wgsl()), "vec4<u32>");
}
