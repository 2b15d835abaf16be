use photonforge::camera::Vector3;
use photonforge::uniform::{CameraUBO, CAMERA_UBO_SIZE, CAMERA_UBO_WORDS, MAX_BOUNCE};

fn vector(x: f32, y: f32, z: f32) -> Vector3 {
    Vector3 { x: x.to_bits(), y: y.to_bits(), z: z.to_bits() }
}

fn sample() -> CameraUBO {
    CameraUBO {
        origin: vector(0.0, 1.0, 4.0),
        dir: vector(1.0, 0.0, 0.0),
        right: vector(0.0, 0.0, 1.0),
        up: vector(0.0, 1.0, 0.0),
        img_size: [1280, 720],
        frame_index: 0x0102_0304,
        max_bounce: MAX_BOUNCE,
    }
}

fn word(bytes: &[u8], offset: usize) -> u32 {
    u32::from_ne_bytes([bytes[offset], bytes[offset + 1], bytes[offset + 2], bytes[offset + 3]])
}

fn number(bytes: &[u8], offset: usize) -> f32 {
    f32::from_bits(word(bytes, offset))
}

#[test]
fn sizes_agree() {
    assert_eq!(CAMERA_UBO_WORDS, 20);
    assert_eq!(CAMERA_UBO_SIZE, 80);
    assert_eq!(MAX_BOUNCE, 2);
    assert_eq!(sample().words().len(), CAMERA_UBO_WORDS);
    assert_eq!(sample().to_bytes().len() as u64, CAMERA_UBO_SIZE);
}

#[test]
fn words_are_in_order_with_padding() {
    let one = 1.0f32.to_bits();
    let four = 4.0f32.to_bits();
    assert_eq!(
        sample().words(),
        [0, one, four, 0, one, 0, 0, 0, 0, 0, one, 0, 0, one, 0, 0, 1280, 720, 0x0102_0304, 2]
    );
}

#[test]
fn bytes_are_the_words_in_machine_order() {
    let ubo = sample();
    let bytes = ubo.to_bytes();
    let mut want: Vec<u8> = Vec::new();
    for w in ubo.words() {
        want.extend_from_slice(&w.to_ne_bytes());
    }
    assert_eq!(bytes, want);
}

#[test]
fn bytes_of_the_frame_index_are_not_the_word_itself() {
    let bytes = sample().to_bytes();
    let at = &bytes[72..76];
    let little_endian = 1u16.to_ne_bytes()[0] == 1;
    if little_endian {
        assert_eq!(at, [0x04, 0x03, 0x02, 0x01]);
    } else {
        assert_eq!(at, [0x01, 0x02, 0x03, 0x04]);
    }
}

#[test]
fn fields_stand_at_their_offsets() {
    let bytes = sample().to_bytes();
    assert_eq!(number(&bytes, 0), 0.0);
    assert_eq!(number(&bytes, 4), 1.0);
    assert_eq!(number(&bytes, 8), 4.0);
    assert_eq!(word(&bytes, 12), 0);
    assert_eq!(number(&bytes, 16), 1.0);
    assert_eq!(number(&bytes, 20), 0.0);
    assert_eq!(number(&bytes, 24), 0.0);
    assert_eq!(word(&bytes, 28), 0);
    assert_eq!(number(&bytes, 32), 0.0);
    assert_eq!(number(&bytes, 36), 0.0);
    assert_eq!(number(&bytes, 40), 1.0);
    assert_eq!(word(&bytes, 44), 0);
    assert_eq!(number(&bytes, 48), 0.0);
    assert_eq!(number(&bytes, 52), 1.0);
    assert_eq!(number(&bytes, 56), 0.0);
    assert_eq!(word(&bytes, 60), 0);
    assert_eq!(word(&bytes, 64), 1280);
    assert_eq!(word(&bytes, 68), 720);
    assert_eq!(word(&bytes, 72), 0x0102_0304);
    assert_eq!(word(&bytes, 76), 2);
}

#[test]
fn every_byte_of_every_field_is_carried() {
    let ubo = CameraUBO {
        origin: Vector3 { x: 0x0101_0101, y: 0x0202_0202, z: 0x0303_0303 },
        dir: Vector3 { x: 0x0404_0404, y: 0x0505_0505, z: 0x0606_0606 },
        right: Vector3 { x: 0x0707_0707, y: 0x0808_0808, z: 0x0909_0909 },
        up: Vector3 { x: 0x0a0a_0a0a, y: 0x0b0b_0b0b, z: 0x0c0c_0c0c },
        img_size: [0x0d0d_0d0d, 0x0e0e_0e0e],
        frame_index: 0x0f0f_0f0f,
        max_bounce: 0x1010_1010,
    };
    let bytes = ubo.to_bytes();
    let want: [u8; 20] = [1, 2, 3, 0, 4, 5, 6, 0, 7, 8, 9, 0, 10, 11, 12, 0, 13, 14, 15, 16];
    for (i, b) in bytes.iter().enumerate() {
        assert_eq!(*b, want[i / 4], "byte {i}");
    }
}
