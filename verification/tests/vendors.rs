use please_install::{PlsError, Vendor};
use please_install::vendors::no_vendor_report;

#[test]
fn catalog_is_total_with_nonempty_executables() {
    for v in Vendor::all() {
        let data = v.data();
        assert_eq!(data.vendor, v);
        assert!(!data.executable.is_empty());
    }
}

#[test]
fn resolution_fails_when_nothing_is_installed() {
    let absent = vec![false; Vendor::all().len()];
    assert_eq!(Vendor::select_available(&absent), None);
}

#[test]
fn no_vendor_message_names_every_candidate() {
    let report = no_vendor_report();
    assert_eq!(
        report,
        "no vendor installed, candidates are: Apt, Yay, Yum, Pacman, Apk, Emerge, Guix, \
         NixEnv, Slackpkg, Cards, Dnf, Eopkg, Opkg, Urpm, Xbps, Zypper, Flatpak, Snap"
    );
    for v in Vendor::all() {
        assert!(report.contains(v.name()));
    }
}

#[test]
fn selection_prefers_the_earliest_available() {
    let mut avail = vec![false; Vendor::all().len()];
    avail[2] = true;
    avail[5] = true;
    assert_eq!(Vendor::select_available(&avail), Some(Vendor::Yum));
}

#[test]
fn display_names_round_trip_lower_cased() {
    for v in Vendor::all() {
        let lowered = v.name().to_lowercase();
        assert_eq!(Vendor::from_name(&lowered), Ok(v));
    }
}

#[test]
fn explicit_names_match_case_insensitively() {
    assert_eq!(Vendor::from_name("PACMAN"), Ok(Vendor::Pacman));
    assert_eq!(Vendor::from_name("NixEnv"), Ok(Vendor::NixEnv));
    assert_eq!(Vendor::from_name("snap"), Ok(Vendor::Snap));
}

#[test]
fn unknown_vendor_name_is_rejected() {
    let err = Vendor::from_name("nonesuch");
    match err {
        Err(PlsError::UnknownVendorName(m)) => {
            assert_eq!(m, "invalid vendor name nonesuch");
        }
        other => panic!("expected an unknown-vendor error, got {:?}", other),
    }
}

#[test]
fn unknown_vendor_name_is_reported_lower_cased() {
    let err = Vendor::from_name("NoneSuch");
    match err {
        Err(PlsError::UnknownVendorName(m)) => {
            assert_eq!(m, "invalid vendor name nonesuch");
        }
        other => panic!("expected an unknown-vendor error, got {:?}", other),
    }
}

#[test]
fn error_text_carries_the_message() {
    let e = PlsError::UnknownVendorName("invalid vendor name x".to_string());
    assert_eq!(e.text(), "invalid vendor name x");
    let e = PlsError::NoVendorAvailable(no_vendor_report());
    assert!(e.text().starts_with("no vendor installed"));
}

#[test]
fn resolution_names_a_candidate_or_reports_them_all() {
    // Which way this goes depends on the host; both outcomes are pinned.
    match Vendor::new() {
        Ok(v) => assert!(Vendor::all().contains(&v)),
        Err(PlsError::NoVendorAvailable(m)) => assert_eq!(m, no_vendor_report()),
        Err(e) => panic!("unexpected error {:?}", e),
    }
}

#[test]
fn availability_probe_answers() {
    // Whether a vendor is present depends on the host; the probe only has to
    // answer without failing.
    let _ = Vendor::Apt.is_available();
}
