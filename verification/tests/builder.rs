use fast_qr_py::{EncodeError, Error, Mask, Mode, QRBuilder, Version, ECL};

fn direct_matrix(code: &fast_qr::QRCode) -> Vec<Vec<bool>> {
    (0..code.size)
        .map(|r| (0..code.size).map(|c| code[r][c].value()).collect())
        .collect()
}

#[test]
fn build_hello_gives_version_one() {
    let qr = QRBuilder::new(b"Hello".to_vec()).build().unwrap();
    assert_eq!(qr.size(), 21);
    let direct = fast_qr::QRBuilder::new("Hello").build().unwrap();
    assert_eq!(qr.matrix(), direct_matrix(&direct));
}

#[test]
fn forced_settings_reach_the_encoder() {
    let mut b = QRBuilder::new(b"https://example.com".to_vec());
    b.ecl(ECL::H);
    b.mode(Mode::Byte);
    b.version(Version::new(5).unwrap());
    b.mask(Mask::Diamonds);
    let qr = b.build().unwrap();
    assert_eq!(qr.size(), 37);

    let mut d = fast_qr::QRBuilder::new("https://example.com");
    d.ecl(fast_qr::ECL::H);
    d.mode(fast_qr::Mode::Byte);
    d.version(fast_qr::Version::V05);
    d.mask(fast_qr::Mask::Diamonds);
    let direct = d.build().unwrap();
    assert_eq!(qr.matrix(), direct_matrix(&direct));
}

#[test]
fn forced_level_changes_the_symbol() {
    let mut low = QRBuilder::new(b"level".to_vec());
    low.ecl(ECL::L);
    let mut high = QRBuilder::new(b"level".to_vec());
    high.ecl(ECL::H);
    assert_ne!(low.build().unwrap().matrix(), high.build().unwrap().matrix());
}

#[test]
fn forced_mask_changes_the_symbol() {
    let mut a = QRBuilder::new(b"mask".to_vec());
    a.mask(Mask::Checkerboard);
    let mut b = QRBuilder::new(b"mask".to_vec());
    b.mask(Mask::Meadow);
    assert_ne!(a.build().unwrap().matrix(), b.build().unwrap().matrix());
}

#[test]
fn forced_version_gives_its_side() {
    for v in [1u8, 2, 10, 40] {
        let mut b = QRBuilder::new(b"abc".to_vec());
        b.version(Version::new(v).unwrap());
        assert_eq!(b.build().unwrap().size(), 4 * v as usize + 17);
    }
}

#[test]
fn too_much_data_is_refused() {
    let mut b = QRBuilder::new(vec![b'x'; 3000]);
    b.ecl(ECL::H);
    assert_eq!(b.build().unwrap_err(), Error::Encoding(EncodeError::DataTooLarge));
}

#[test]
fn too_small_forced_version_is_refused() {
    let mut b = QRBuilder::new(vec![b'x'; 100]);
    b.version(Version::new(1).unwrap());
    assert_eq!(b.build().unwrap_err(), Error::Encoding(EncodeError::VersionTooSmall));
}

#[test]
fn default_level_is_q() {
    let free = QRBuilder::new(b"default level".to_vec()).build().unwrap();
    let mut q = QRBuilder::new(b"default level".to_vec());
    q.ecl(ECL::Q);
    let forced = q.build().unwrap();
    assert_eq!(free.matrix(), forced.matrix());
}

#[test]
fn free_version_is_the_smallest_that_fits() {
    let data = vec![b'y'; 60];
    let free = QRBuilder::new(data.clone()).build().unwrap();
    let least = ((free.size() - 17) / 4) as u8;
    for v in 1..=40u8 {
        let mut b = QRBuilder::new(data.clone());
        b.version(Version::new(v).unwrap());
        let r = b.build();
        if v < least {
            assert_eq!(r.unwrap_err(), Error::Encoding(EncodeError::VersionTooSmall));
        } else {
            let qr = r.unwrap();
            assert_eq!(qr.size(), 4 * v as usize + 17);
            if v == least {
                assert_eq!(qr.matrix(), free.matrix());
            }
        }
    }
}

#[test]
fn capacity_does_not_depend_on_forced_version() {
    let data = vec![b'z'; 2000];
    let mut free = QRBuilder::new(data.clone());
    free.ecl(ECL::H);
    assert_eq!(free.build().unwrap_err(), Error::Encoding(EncodeError::DataTooLarge));
    let mut forced = QRBuilder::new(data);
    forced.ecl(ECL::H);
    forced.version(Version::new(40).unwrap());
    assert_eq!(forced.build().unwrap_err(), Error::Encoding(EncodeError::DataTooLarge));
}

#[test]
fn empty_data_still_builds() {
    let qr = QRBuilder::new(Vec::new()).build().unwrap();
    assert_eq!(qr.size(), 21);
}

#[test]
fn forced_mode_reaches_the_encoder() {
    let free = QRBuilder::new(b"0123456789".to_vec()).build().unwrap();
    let mut b = QRBuilder::new(b"0123456789".to_vec());
    b.mode(Mode::Byte);
    let forced = b.build().unwrap();
    assert_ne!(free.matrix(), forced.matrix());

    let mut d = fast_qr::QRBuilder::new("0123456789");
    d.mode(fast_qr::Mode::Byte);
    assert_eq!(forced.matrix(), direct_matrix(&d.build().unwrap()));
}

#[test]
fn numeric_mode_refuses_nothing_it_can_hold() {
    let mut b = QRBuilder::new(b"31415926535".to_vec());
    b.mode(Mode::Numeric);
    b.ecl(ECL::L);
    assert_eq!(b.build().unwrap().size(), 21);
}

#[test]
fn forced_mode_must_admit_the_data() {
    let mut b = QRBuilder::new(b"12ab".to_vec());
    assert!(b.mode_admits_data());
    b.mode(Mode::Numeric);
    assert!(!b.mode_admits_data());
    b.mode(Mode::Alphanumeric);
    assert!(!b.mode_admits_data());
    b.mode(Mode::Byte);
    assert!(b.mode_admits_data());

    let mut c = QRBuilder::new(b"HELLO WORLD $%*+-./:09".to_vec());
    c.mode(Mode::Alphanumeric);
    assert!(c.mode_admits_data());
    assert_eq!(c.build().unwrap().size(), 25);
    c.mode(Mode::Numeric);
    assert!(!c.mode_admits_data());

    let mut d = QRBuilder::new(b"0123".to_vec());
    d.mode(Mode::Numeric);
    assert!(d.mode_admits_data());
}

#[test]
fn lower_levels_hold_at_least_as_much() {
    let data = vec![b'w'; 100];
    let levels = [ECL::L, ECL::M, ECL::Q, ECL::H];
    let sides: Vec<Result<usize, Error>> = levels
        .iter()
        .map(|l| {
            let mut b = QRBuilder::new(data.clone());
            b.ecl(*l);
            b.build().map(|q| q.size())
        })
        .collect();
    for i in 0..4 {
        for j in i..4 {
            if let Ok(hi) = sides[j] {
                assert!(sides[i].clone().unwrap() <= hi);
            }
        }
    }
    assert!(sides[0].clone().unwrap() < sides[3].clone().unwrap());
}

#[test]
fn too_large_at_one_level_is_too_large_above() {
    let data = vec![b'v'; 2500];
    let mut l = QRBuilder::new(data.clone());
    l.ecl(ECL::L);
    assert!(l.build().is_ok());
    let mut m = QRBuilder::new(data.clone());
    m.ecl(ECL::M);
    assert_eq!(m.build().unwrap_err(), Error::Encoding(EncodeError::DataTooLarge));
    for higher in [ECL::Q, ECL::H] {
        let mut b = QRBuilder::new(data.clone());
        b.ecl(higher);
        assert_eq!(b.build().unwrap_err(), Error::Encoding(EncodeError::DataTooLarge));
    }
}
