use contourwall_core::checksum::checksum;
use contourwall_core::delta::{extract_mutated_pixels, get_pixel_index};
use contourwall_core::index_map::{generate_index_conversion_vector, rewire, IndexTable};
use contourwall_core::layout::split_framebuffer;

#[test]
fn test_extract_mutated_framebuffer_no_led_is_updated_case() {
    //arrange
    let previous_framebuffer = &mut [0u8; 1200];
    let current_framebuffer = &mut [0u8; 1200];

    let expected_mutated_framebuffer: Vec<u8> = vec![];

    //action
    let mutated_framebuffer = extract_mutated_pixels(previous_framebuffer, current_framebuffer);

    //assert
    assert_eq!(
        mutated_framebuffer, expected_mutated_framebuffer,
        "the result_different_frambuffer is wrong: {:?}",
        mutated_framebuffer
    );
}

#[test]
fn test_diff_framebuffer_the_first_pixel_is_updated_case() {
    //arrange
    let previous_framebuffer = &mut [0u8; 1200];
    let current_framebuffer = &mut [0u8; 1200];
    current_framebuffer[0..3].copy_from_slice(&[1u8; 3]);

    let expected_mutated_framebuffer: Vec<u8> = vec![0, 0, 1, 1, 1];

    //action
    let mutated_framebuffer = extract_mutated_pixels(previous_framebuffer, current_framebuffer);

    //assert
    assert_eq!(
        mutated_framebuffer, expected_mutated_framebuffer,
        "the result_different_frambuffer is wrong: {:?}",
        mutated_framebuffer
    );
}

#[test]
fn test_diff_framebuffer_the_last_pixel_is_updated() {
    //arrange
    let previous_framebuffer = &mut [0u8; 1200];
    let current_framebuffer = &mut [0u8; 1200];
    current_framebuffer[1197..1200].copy_from_slice(&[1u8; 3]);

    let expected_mutated_framebuffer: Vec<u8> = vec![0x1, 0x8F, 1, 1, 1];

    //action
    let mutated_framebuffer = extract_mutated_pixels(previous_framebuffer, current_framebuffer);

    //assert
    assert_eq!(
        mutated_framebuffer, expected_mutated_framebuffer,
        "the result_different_frambuffer is wrong: {:?}",
        mutated_framebuffer
    );
}

#[test]
fn test_diff_framebuffer_the_first_and_last_pixel_are_updated_case() {
    //arrange
    let previous_framebuffer = &mut [0u8; 1200];
    let current_framebuffer = &mut [0u8; 1200];
    current_framebuffer[0..3].copy_from_slice(&[1u8; 3]);
    current_framebuffer[1197..1200].copy_from_slice(&[1u8; 3]);

    let expected_mutated_framebuffer: Vec<u8> = vec![0, 0, 1, 1, 1, 0x1, 0x8F, 1, 1, 1];

    //action
    let mutated_framebuffer = extract_mutated_pixels(previous_framebuffer, current_framebuffer);

    //assert
    assert_eq!(
        mutated_framebuffer, expected_mutated_framebuffer,
        "the result_different_frambuffer is wrong: {:?}",
        mutated_framebuffer
    );
}

#[test]
fn test_get_pixel_index_smaller_than_255() {
    //arrange
    let index: usize = 12 * 3;
    let expected_pixel_index: [u8; 2] = [0, 12];

    //action
    let index_pixel = get_pixel_index(index);

    //assert
    assert_eq!(
        index_pixel, expected_pixel_index,
        "the result of the index pixel is wrong{:?}",
        index_pixel
    );
}

#[test]
fn test_get_pixel_index_255() {
    //arrange
    let index: usize = 255 * 3;
    let expected_pixel_index: [u8; 2] = [0, 255];

    //action
    let index_pixel = get_pixel_index(index);

    //assert
    assert_eq!(
        index_pixel, expected_pixel_index,
        "the result of the index pixel is wrong{:?}",
        index_pixel
    );
}

#[test]
fn test_get_pixel_index_256() {
    //arrange
    let index: usize = 256 * 3;
    let expected_pixel_index: [u8; 2] = [1, 0];

    //action
    let index_pixel = get_pixel_index(index);

    //assert
    assert_eq!(
        index_pixel, expected_pixel_index,
        "the result of the index pixel is wrong{:?}",
        index_pixel
    );
}

#[test]
fn test_get_pixel_index_smaller_than_399() {
    //arrange
    let index: usize = 300 * 3;
    let expected_pixel_index: [u8; 2] = [0x01, 0x2C];

    //action
    let index_pixel = get_pixel_index(index);

    //assert
    assert_eq!(
        index_pixel, expected_pixel_index,
        "the result of the index pixel is wrong{:?}",
        index_pixel
    );
}

#[test]
fn test_get_pixel_index_maximum() {
    //arrange
    let index: usize = 399 * 3;
    let expected_pixel_index: [u8; 2] = [0x1, 0x8F];

    //action
    let index_pixel = get_pixel_index(index);

    //assert
    assert_eq!(
        index_pixel, expected_pixel_index,
        "the result of the index pixel is wrong{:?}",
        index_pixel
    );
}

#[test]
fn test_split_framebuffer_all_0() {
    let framebuffer: &[u8] = &[0; 7200];

    let framebuffers = split_framebuffer(framebuffer);

    for (i, framebuffer) in framebuffers.iter().enumerate() {
        assert_eq!(
            framebuffer.len(),
            1200,
            "Framebuffer at index: {}, has a length of {} not 1200",
            i,
            framebuffer.len()
        )
    }
}

#[test]
fn test_split_framebuffer() {
    let framebuffer: &mut [u8] = &mut [0; 7200];

    framebuffer[0] = 1;
    framebuffer[60] = 2;
    framebuffer[2400] = 3;
    framebuffer[2460] = 4;
    framebuffer[4800] = 5;
    framebuffer[4860] = 6;

    let framebuffers = split_framebuffer(framebuffer);

    assert_eq!(framebuffers[0][0], 1, "Top left framebuffer");
    assert_eq!(framebuffers[1][0], 3, "Top center framebuffer");
    assert_eq!(framebuffers[2][0], 5, "top right framebuffer");
    assert_eq!(framebuffers[3][0], 2, "Bottom left framebuffer");
    assert_eq!(framebuffers[4][0], 4, "Bottom center framebuffer");
    assert_eq!(framebuffers[5][0], 6, "Bottom right framebuffer");
}

#[test]
fn test_index_conversion_vector() {
    let conversion_vector = generate_index_conversion_vector();

    assert_eq!(conversion_vector[1199], 1199);
    assert_eq!(conversion_vector[60], 3);
    assert_eq!(conversion_vector[300], 300);
    assert_eq!(conversion_vector[659], 887);
}

#[test]
fn checksum_is_the_sum_modulo_256() {
    assert_eq!(checksum(&[]), 0);
    assert_eq!(checksum(&[7]), 7);
    assert_eq!(checksum(&[255, 0, 255]), 254);
    assert_eq!(checksum(&[200, 100]), 44);
    assert_eq!(checksum(&[255, 1]), 0);
    let bytes: Vec<u8> = (0..1000).map(|i| (i * 7 % 256) as u8).collect();
    let sum: u32 = bytes.iter().map(|b| *b as u32).sum();
    assert_eq!(checksum(&bytes) as u32, sum % 256);
}

#[test]
fn checksum_of_two_bytes_ignores_their_order() {
    for a in 0..=255u8 {
        for b in 0..=255u8 {
            assert_eq!(checksum(&[a, b]), checksum(&[b, a]));
            assert_eq!(checksum(&[a, b]), a.wrapping_add(b));
        }
    }
}

#[test]
fn checksum_ignores_the_order_of_a_frame() {
    let table = generate_index_conversion_vector();
    let frame: Vec<u8> = (0..1200).map(|i| (i * 31 % 251) as u8).collect();
    let wired = rewire(&table, &frame);
    assert_ne!(wired.to_vec(), frame);
    assert_eq!(checksum(&wired), checksum(&frame));
}

#[test]
fn index_table_is_a_permutation() {
    let table = generate_index_conversion_vector();
    let mut seen = [false; 1200];
    for i in 0..1200 {
        assert!(table[i] < 1200);
        assert!(!seen[table[i]], "offset {} is reached twice", table[i]);
        seen[table[i]] = true;
    }
    assert!(seen.iter().all(|s| *s));
}

#[test]
fn index_table_follows_the_bands() {
    let table = generate_index_conversion_vector();
    // first pixel of each band of columns
    assert_eq!(table[0], 0);
    assert_eq!(table[3 * 100], 3 * 100);
    assert_eq!(table[3 * 200], 3 * 200);
    assert_eq!(table[3 * 300], 3 * 300);
    // one step along a column moves five places on
    assert_eq!(table[3], 15);
    assert_eq!(table[6], 30);
    // the next column of a band starts one place on
    assert_eq!(table[3 * 20], 3);
    assert_eq!(table[3 * 40], 6);
    // the three bytes of a pixel stay together
    assert_eq!(table[3 * 219], 885);
    assert_eq!(table[3 * 219 + 1], 886);
    assert_eq!(table[3 * 219 + 2], 887);
}

#[test]
fn rewire_puts_each_byte_where_the_table_says() {
    let table = generate_index_conversion_vector();
    let frame: Vec<u8> = (0..1200).map(|i| (i % 256) as u8).collect();
    let wired = rewire(&table, &frame);
    for i in 0..1200 {
        assert_eq!(wired[table[i]], frame[i]);
    }
    assert_eq!(wired[3], frame[60]);
    assert_eq!(wired[887], frame[659]);
}

#[test]
fn pixel_index_is_big_endian_for_every_pixel() {
    for k in 0..=399usize {
        let bytes = get_pixel_index(k * 3);
        assert_eq!(bytes, (k as u16).to_be_bytes());
        assert_eq!(256 * bytes[0] as usize + bytes[1] as usize, k);
    }
}

#[test]
fn pixel_index_beyond_the_tile_is_zero() {
    assert_eq!(get_pixel_index(400 * 3), [0, 0]);
    assert_eq!(get_pixel_index(401 * 3), [0, 0]);
    assert_eq!(get_pixel_index(30000 * 3), [0, 0]);
}

#[test]
fn delta_brings_the_previous_frame_up_to_date() {
    let mut previous = [0u8; 1200];
    let mut current = [0u8; 1200];
    current[30] = 9;
    current[31] = 8;
    current[700] = 7;
    let list = extract_mutated_pixels(&mut previous, &current);
    assert_eq!(list, vec![0, 10, 9, 8, 0, 0, 233, 0, 7, 0]);
    assert_eq!(previous.to_vec(), current.to_vec());
    let again = extract_mutated_pixels(&mut previous, &current);
    assert_eq!(again, Vec::<u8>::new());
}

#[test]
fn delta_lists_the_colour_of_the_new_frame() {
    let mut previous = [5u8; 1200];
    let mut current = [5u8; 1200];
    current[3 * 256] = 1;
    current[3 * 256 + 1] = 2;
    current[3 * 256 + 2] = 3;
    let list = extract_mutated_pixels(&mut previous, &current);
    assert_eq!(list, vec![1, 0, 1, 2, 3]);
}

#[test]
fn delta_of_a_wholly_new_frame_lists_every_pixel_in_order() {
    let mut previous = [0u8; 1200];
    let current = [1u8; 1200];
    let list = extract_mutated_pixels(&mut previous, &current);
    assert_eq!(list.len(), 2000);
    for k in 0..400usize {
        assert_eq!(list[5 * k], (k / 256) as u8);
        assert_eq!(list[5 * k + 1], (k % 256) as u8);
        assert_eq!(&list[5 * k + 2..5 * k + 5], &[1, 1, 1]);
    }
}

#[test]
fn split_takes_each_byte_from_its_place_in_the_wall() {
    let framebuffer: Vec<u8> = (0..7200).map(|i| (i % 251) as u8).collect();
    let parts = split_framebuffer(&framebuffer);
    assert_eq!(parts.len(), 6);
    for slot in 0..6 {
        assert_eq!(parts[slot].len(), 1200);
        for k in 0..1200 {
            let offset = (slot % 3) * 2400 + (k / 60) * 120 + (slot / 3) * 60 + k % 60;
            assert_eq!(parts[slot][k], framebuffer[offset]);
        }
    }
}

#[test]
fn split_of_a_short_buffer_gives_what_is_there() {
    let parts = split_framebuffer(&[1, 2, 3]);
    assert_eq!(parts[0], vec![1, 2, 3]);
    for slot in 1..6 {
        assert!(parts[slot].is_empty());
    }
    let framebuffer: Vec<u8> = (0..130).map(|i| i as u8).collect();
    let parts = split_framebuffer(&framebuffer);
    assert_eq!(parts[0].len(), 70);
    assert_eq!(parts[3].len(), 60);
    assert_eq!(parts[0][60], 120);
    assert_eq!(parts[3][0], 60);
    let parts = split_framebuffer(&[]);
    assert_eq!(parts.len(), 6);
    assert!(parts.iter().all(|part| part.is_empty()));
}

#[test]
fn kept_table_rewires_as_the_built_one() {
    let table = generate_index_conversion_vector();
    let kept = IndexTable::new();
    let frame: Vec<u8> = (0..1200).map(|i| (i * 13 % 256) as u8).collect();
    assert_eq!(kept.rewire(&frame), rewire(&table, &frame));
    let mut marked = vec![0u8; 1200];
    marked[60] = 7;
    let wired = kept.rewire(&marked);
    assert_eq!(wired[3], 7);
    assert_eq!(wired.iter().filter(|b| **b != 0).count(), 1);
}
