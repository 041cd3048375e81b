use raytracer::texture::ImageTexture;

#[test]
fn image_texture_new_stores_bytes_and_dimensions() {
    let data: Vec<u8> = vec![1, 2, 3, 4, 5, 6];
    let texture = ImageTexture::new(data.clone(), 2, 1);
    assert_eq!(texture.data, data);
    assert_eq!(texture.width, 2);
    assert_eq!(texture.height, 1);
}

#[test]
fn texel_fetches_row_major_rgb_triples() {
    let data: Vec<u8> = (0u8..12).collect();
    let texture = ImageTexture::new(data, 2, 2);
    assert_eq!(texture.texel(0, 0), (0u8, 1, 2));
    assert_eq!(texture.texel(1, 0), (3u8, 4, 5));
    assert_eq!(texture.texel(0, 1), (6u8, 7, 8));
    assert_eq!(texture.texel(1, 1), (9u8, 10, 11));
}

#[test]
fn texel_clamps_to_the_image_edge() {
    let data: Vec<u8> = (0u8..12).collect();
    let texture = ImageTexture::new(data, 2, 2);
    assert_eq!(texture.texel(2, 0), texture.texel(1, 0));
    assert_eq!(texture.texel(0, 2), texture.texel(0, 1));
    assert_eq!(texture.texel(100, 100), (9u8, 10, 11));
}

#[test]
fn texel_on_a_single_pixel_image() {
    let texture = ImageTexture::new(vec![7, 8, 9], 1, 1);
    assert_eq!(texture.texel(0, 0), (7u8, 8, 9));
    assert_eq!(texture.texel(5, 5), (7u8, 8, 9));
}
