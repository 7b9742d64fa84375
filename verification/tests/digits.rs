use ams_session::digits::{decimal, decimal_u64, deux_nombres, MAX_DIGITS};

#[test]
fn une_taille_qui_deborde_n_est_pas_tronquee() {
    assert_eq!(decimal_u64(b"0"), Some(0));
    assert_eq!(
        decimal_u64(b"18446744073709551615"),
        Some(u64::MAX),
        "la plus grande qui tienne"
    );
    // The next one overflows at the ADDITION of the last digit...
    assert_eq!(decimal_u64(b"18446744073709551616"), None);
    // ...and this one at the MULTIPLICATION, one digit earlier.
    assert_eq!(decimal_u64(b"99999999999999999999999"), None);
    assert_eq!(decimal_u64(b""), None);
    assert_eq!(decimal_u64(b"12x"), None);
}

#[test]
fn ce_qui_s_ecrit_se_relit() {
    for n in [0_u64, 7, 10, 99, 100, 4096, 10_485_760, u64::MAX] {
        let ecrit = decimal(n);
        assert_eq!(ecrit, n.to_string().into_bytes());
        assert!(ecrit.len() <= MAX_DIGITS);
        assert_eq!(decimal_u64(&ecrit), Some(n));
    }
}

#[test]
fn deux_nombres_sont_separes_par_une_espace() {
    assert_eq!(deux_nombres(3, 600), b"3 600".to_vec());
    assert_eq!(deux_nombres(0, 0), b"0 0".to_vec());
}

#[test]
fn un_signe_ou_une_espace_n_est_pas_un_chiffre() {
    assert_eq!(decimal_u64(b"-1"), None);
    assert_eq!(decimal_u64(b" 1"), None);
    assert_eq!(decimal_u64(b"007"), Some(7));
}
