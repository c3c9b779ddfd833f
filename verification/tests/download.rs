use mas_installer::download::check_status;
use mas_installer::download::parse_content_length;
use mas_installer::download::simulate_full_transfer;
use mas_installer::download::start_transfer;
use mas_installer::download::DownloadTransfer;
use mas_installer::errors::DownloadError;
use mas_installer::events::Fraction;

#[test]
fn full_transfer_tiles_the_asset() {
    let served = simulate_full_transfer(100, 30);
    assert_eq!(served, vec![(0, 30), (30, 60), (60, 90), (90, 100)]);
}

#[test]
fn full_transfer_single_chunk_when_chunk_exceeds_length() {
    let served = simulate_full_transfer(10, 1000);
    assert_eq!(served, vec![(0, 10)]);
}

#[test]
fn full_transfer_exact_multiple() {
    let served = simulate_full_transfer(90, 30);
    assert_eq!(served, vec![(0, 30), (30, 60), (60, 90)]);
}

#[test]
fn full_transfer_empty_asset_makes_no_request() {
    let served = simulate_full_transfer(0, 8);
    assert!(served.is_empty());
}

#[test]
fn short_read_advances_low_by_received_only() {
    let mut t = DownloadTransfer::with_chunk(100, 40);
    assert_eq!(t.current_range(), (0, 40));
    t.record_chunk(25);
    // the next window starts after the 25 bytes actually received, not 40
    assert_eq!(t.current_range(), (25, 65));
    t.record_chunk(40);
    assert_eq!(t.current_range(), (65, 101));
    t.record_chunk(35);
    assert!(t.is_done());
}

#[test]
fn progress_is_nondecreasing_and_one_exactly_at_the_end() {
    let mut t = DownloadTransfer::with_chunk(50, 20);
    let mut last = 0u64;
    let mut fractions = Vec::new();
    while !t.is_done() {
        let (low, high) = t.current_range();
        let received = high.min(50) - low;
        t.record_chunk(received);
        let f = t.progress().unwrap();
        assert_eq!(f.den, 50);
        assert!(f.num >= last);
        last = f.num;
        fractions.push(f);
    }
    let f = fractions.last().unwrap();
    assert_eq!(f.num, f.den);
    for f in &fractions[..fractions.len() - 1] {
        assert!(f.num < f.den);
    }
}

#[test]
fn abort_before_download_returns_success_with_no_transfer() {
    assert_eq!(start_transfer(true, Some(1000)), Ok(None));
    assert_eq!(start_transfer(true, None), Ok(None));
}

#[test]
fn missing_content_length_fails_before_any_request() {
    assert_eq!(
        start_transfer(false, None),
        Err(DownloadError::InvalidContentLen)
    );
}

#[test]
fn present_content_length_opens_a_transfer() {
    let t = start_transfer(false, Some(1000)).unwrap().unwrap();
    assert_eq!(t.content_length, 1000);
    assert_eq!(t.total_downloaded, 0);
    assert_eq!(t.current_range(), (0, 1000));
}

#[test]
fn status_codes() {
    assert_eq!(check_status(200), Ok(()));
    assert_eq!(check_status(206), Ok(()));
    assert_eq!(check_status(299), Ok(()));
    assert_eq!(check_status(301), Err(DownloadError::InvalidStatusCode(301)));
    assert_eq!(check_status(404), Err(DownloadError::InvalidStatusCode(404)));
    assert_eq!(check_status(500), Err(DownloadError::InvalidStatusCode(500)));
}

#[test]
fn content_length_parsing() {
    assert_eq!(parse_content_length(b"0"), Some(0));
    assert_eq!(parse_content_length(b"42"), Some(42));
    assert_eq!(parse_content_length(b"0042"), Some(42));
    assert_eq!(parse_content_length(b"8589934592"), Some(8589934592));
    assert_eq!(parse_content_length(b""), None);
    assert_eq!(parse_content_length(b"12a"), None);
    assert_eq!(parse_content_length(b"-5"), None);
    assert_eq!(parse_content_length(b" 7"), None);
    assert_eq!(parse_content_length(b"18446744073709551615"), Some(u64::MAX));
    assert_eq!(parse_content_length(b"18446744073709551616"), None);
}

#[test]
fn empty_progress_is_skipped() {
    let t = DownloadTransfer::with_chunk(0, 8);
    assert!(t.is_done());
    assert_eq!(t.progress(), None);
}

#[test]
fn fraction_new_keeps_the_parts() {
    let f = Fraction::new(3, 4);
    assert_eq!(f.num, 3);
    assert_eq!(f.den, 4);
}
