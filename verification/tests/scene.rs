use simloop::scene::{cube_indices, Shader};

#[test]
fn shader_codes() {
    assert_eq!(Shader::Texture.code(), 0);
    assert_eq!(Shader::NonMaterial.code(), 1);
    assert_eq!(Shader::Pulse.code(), 2);
    assert_eq!(Shader::Ripple.code(), 3);
    assert_eq!(Shader::ColorTween.code(), 4);
    assert_eq!(Shader::SimpleTransparency.code(), 5);
    assert_eq!(Shader::Aerogel.code(), 6);
}

#[test]
fn shader_codes_are_distinct() {
    let all = [
        Shader::Texture,
        Shader::NonMaterial,
        Shader::Pulse,
        Shader::Ripple,
        Shader::ColorTween,
        Shader::SimpleTransparency,
        Shader::Aerogel,
    ];
    for (i, a) in all.iter().enumerate() {
        for (j, b) in all.iter().enumerate() {
            assert_eq!(a.code() == b.code(), i == j);
            assert_eq!(a == b, i == j);
        }
    }
}

#[test]
fn cube_indices_as_listed() {
    assert_eq!(
        cube_indices(false),
        vec![
            0, 1, 2, 1, 3, 2, 4, 6, 5, 5, 6, 7, 8, 9, 10, 10, 9, 11, 12, 14, 13, 13, 14, 15, 16,
            17, 18, 18, 17, 19, 20, 22, 21, 21, 22, 23
        ]
    );
}

#[test]
fn inverted_cube_indices_run_backward() {
    let forward = cube_indices(false);
    let backward = cube_indices(true);
    assert_eq!(backward.len(), 36);
    assert_eq!(backward[0], 23);
    assert_eq!(backward[35], 0);
    let mut again = backward.clone();
    again.reverse();
    assert_eq!(again, forward);
}

#[test]
fn cube_indices_name_the_24_vertices() {
    for inverted in [false, true] {
        let indices = cube_indices(inverted);
        assert_eq!(indices.len() % 3, 0);
        assert!(indices.iter().all(|i| *i < 24));
        for vertex in 0..24u32 {
            assert!(indices.contains(&vertex));
        }
    }
}
