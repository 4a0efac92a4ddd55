use terrain::generate_landscape::{corner_hashes, gradient, permutation_at, GenerateLandscape, Gradient, PERMUTATION};

const DOUBLED: [usize; 512] = [151, 160, 137, 91, 90, 15, 131, 13, 201, 95, 96, 53, 194, 233, 7, 225, 140, 36, 103, 30, 69, 142, 8, 99, 37, 240, 21, 10, 23, 190, 6, 148, 247, 120, 234, 75, 0, 26, 197, 62, 94, 252, 219, 203, 117, 35, 11, 32, 57, 177, 33, 88, 237, 149, 56, 87, 174, 20, 125, 136, 171, 168, 68, 175, 74, 165, 71, 134, 139, 48, 27, 166, 77, 146, 158, 231, 83, 111, 229, 122, 60, 211, 133, 230, 220, 105, 92, 41, 55, 46, 245, 40, 244, 102, 143, 54, 65, 25, 63, 161, 1, 216, 80, 73, 209, 76, 132, 187, 208, 89, 18, 169, 200, 196, 135, 130, 116, 188, 159, 86, 164, 100, 109, 198, 173, 186, 3, 64, 52, 217, 226, 250, 124, 123, 5, 202, 38, 147, 118, 126, 255, 82, 85, 212, 207, 206, 59, 227, 47, 16, 58, 17, 182, 189, 28, 42, 223, 183, 170, 213, 119, 248, 152, 2, 44, 154, 163, 70, 221, 153, 101, 155, 167, 43, 172, 9, 129, 22, 39, 253, 19, 98, 108, 110, 79, 113, 224, 232, 178, 185, 112, 104, 218, 246, 97, 228, 251, 34, 242, 193, 238, 210, 144, 12, 191, 179, 162, 241, 81, 51, 145, 235, 249, 14, 239, 107, 49, 192, 214, 31, 181, 199, 106, 157, 184, 84, 204, 176, 115, 121, 50, 45, 127, 4, 150, 254, 138, 236, 205, 93, 222, 114, 67, 29, 24, 72, 243, 141, 128, 195, 78, 66, 215, 61, 156, 180, 151, 160, 137, 91, 90, 15, 131, 13, 201, 95, 96, 53, 194, 233, 7, 225, 140, 36, 103, 30, 69, 142, 8, 99, 37, 240, 21, 10, 23, 190, 6, 148, 247, 120, 234, 75, 0, 26, 197, 62, 94, 252, 219, 203, 117, 35, 11, 32, 57, 177, 33, 88, 237, 149, 56, 87, 174, 20, 125, 136, 171, 168, 68, 175, 74, 165, 71, 134, 139, 48, 27, 166, 77, 146, 158, 231, 83, 111, 229, 122, 60, 211, 133, 230, 220, 105, 92, 41, 55, 46, 245, 40, 244, 102, 143, 54, 65, 25, 63, 161, 1, 216, 80, 73, 209, 76, 132, 187, 208, 89, 18, 169, 200, 196, 135, 130, 116, 188, 159, 86, 164, 100, 109, 198, 173, 186, 3, 64, 52, 217, 226, 250, 124, 123, 5, 202, 38, 147, 118, 126, 255, 82, 85, 212, 207, 206, 59, 227, 47, 16, 58, 17, 182, 189, 28, 42, 223, 183, 170, 213, 119, 248, 152, 2, 44, 154, 163, 70, 221, 153, 101, 155, 167, 43, 172, 9, 129, 22, 39, 253, 19, 98, 108, 110, 79, 113, 224, 232, 178, 185, 112, 104, 218, 246, 97, 228, 251, 34, 242, 193, 238, 210, 144, 12, 191, 179, 162, 241, 81, 51, 145, 235, 249, 14, 239, 107, 49, 192, 214, 31, 181, 199, 106, 157, 184, 84, 204, 176, 115, 121, 50, 45, 127, 4, 150, 254, 138, 236, 205, 93, 222, 114, 67, 29, 24, 72, 243, 141, 128, 195, 78, 66, 215, 61, 156, 180];

#[test]
fn generate_landscape_new_has_no_state() {
    let _landscape: GenerateLandscape = GenerateLandscape::new();
}

#[test]
fn permutation_matches_the_doubled_table() {
    for i in 0..512 {
        assert_eq!(permutation_at(i), DOUBLED[i]);
    }
}

#[test]
fn permutation_is_a_permutation_of_0_to_255() {
    let mut seen = [false; 256];
    for v in PERMUTATION.iter() {
        assert!(!seen[*v as usize]);
        seen[*v as usize] = true;
    }
    assert!(seen.iter().all(|s| *s));
}

#[test]
fn corner_hashes_of_origin() {
    assert_eq!(corner_hashes(0, 0), (17, 119, 182, 248));
}

#[test]
fn corner_hashes_of_inner_cell() {
    assert_eq!(corner_hashes(3, 7), (63, 25, 161, 63));
}

#[test]
fn corner_hashes_wrap_at_256() {
    assert_eq!(corner_hashes(300, 5), (109, 94, 198, 252));
    assert_eq!(corner_hashes(300, 5), corner_hashes(44, 5));
    assert_eq!(corner_hashes(255, 255), (253, 58, 19, 17));
}

#[test]
fn gradient_follows_the_two_low_bits() {
    assert_eq!(gradient(0), Gradient::PlusXPlusY);
    assert_eq!(gradient(1), Gradient::MinusXPlusY);
    assert_eq!(gradient(2), Gradient::PlusXMinusY);
    assert_eq!(gradient(3), Gradient::MinusXMinusY);
    assert_eq!(gradient(151), Gradient::MinusXMinusY);
    assert_eq!(gradient(4), Gradient::PlusXPlusY);
}

#[test]
fn gradient_signs() {
    assert_eq!((Gradient::PlusXPlusY.x_sign(), Gradient::PlusXPlusY.y_sign()), (1, 1));
    assert_eq!((Gradient::MinusXPlusY.x_sign(), Gradient::MinusXPlusY.y_sign()), (-1, 1));
    assert_eq!((Gradient::PlusXMinusY.x_sign(), Gradient::PlusXMinusY.y_sign()), (1, -1));
    assert_eq!((Gradient::MinusXMinusY.x_sign(), Gradient::MinusXMinusY.y_sign()), (-1, -1));
}
