use reveleitor::secret::{path_part_from_indices, random_path_part, PASSWORD_LEN};

const CHARSET: &str = "ABCDEFGHIJKLMNOPQRSTUVWXYZabcdefghijklmnopqrstuvwxyz0123456789";

#[test]
fn draws_select_charset_characters() {
    assert_eq!(path_part_from_indices(&vec![0, 25, 26, 51, 52, 61]), "AZaz09");
    assert_eq!(path_part_from_indices(&vec![]), "");
    assert_eq!(path_part_from_indices(&vec![7, 7]), "HH");
}

#[test]
fn random_part_has_six_charset_characters() {
    for _ in 0..50 {
        let p = random_path_part();
        assert_eq!(PASSWORD_LEN, 6);
        assert_eq!(p.chars().count(), 6);
        assert!(p.chars().all(|c| CHARSET.contains(c)));
    }
}
