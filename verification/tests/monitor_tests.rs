use dface::monitor::{
    assess, build_page, compare_pages, expiry_cutoff, get_logs, get_phash, get_sshash, new_monitor,
    now_seconds, plan_check, retention_cutoff, similarity_scores, CheckPlan, ComparisonError,
    MissingMonitorField, Monitor, Page,
};
use dface::phash::distance_within;
use image::{DynamicImage, ImageBuffer, ImageFormat, Rgb};
use std::io::Cursor;

fn png(seed: u8) -> Vec<u8> {
    let img = ImageBuffer::from_fn(64, 48, |x, y| {
        let v = ((x * 4) as u8).wrapping_add((y * 3) as u8).wrapping_mul(seed);
        Rgb([v, v.wrapping_add(40), 255 - v])
    });
    let mut bytes: Vec<u8> = Vec::new();
    DynamicImage::ImageRgb8(img)
        .write_to(&mut Cursor::new(&mut bytes), ImageFormat::Png)
        .unwrap();
    bytes
}

fn html(n: usize) -> String {
    let mut s = String::new();
    for i in 0..n {
        s.push_str(&format!("<p>paragraph {} of the monitored page, text {}</p>\n", i, i * 7 % 13));
    }
    s
}

fn page(uri: &str, body: &str, phash: &str, timestamp: u32) -> Page {
    Page {
        uri: uri.to_string(),
        html: body.to_string(),
        timestamp,
        sshash: get_sshash(&body.to_string()),
        image: None,
        phash: phash.to_string(),
    }
}

fn monitor(threshold: u32) -> Monitor {
    Monitor { uri: "http://site.test/".to_string(), frequency: 600, threshold, retention: 86400 }
}

#[test]
fn similarity_scores_identical() {
    assert_eq!(similarity_scores(100, 0), [100, 100, 100]);
}

#[test]
fn similarity_scores_formula() {
    // perceptual = 100 - 100*10/72 = 87, overall = (46 + 87) / 2 = 66
    assert_eq!(similarity_scores(46, 10), [66, 46, 87]);
    assert_eq!(similarity_scores(80, 36), [65, 80, 50]);
    assert_eq!(similarity_scores(0, 72), [0, 0, 0]);
    assert_eq!(similarity_scores(100, 1), [99, 100, 99]);
}

#[test]
fn distance_counts_differing_bits() {
    assert_eq!(distance_within(&[0xff], &[0x00], 72), Some(8));
    assert_eq!(distance_within(&[0xff], &[0x00], 7), None);
    assert_eq!(distance_within(&[0xff, 0xff], &[0x0f], 72), Some(4));
    assert_eq!(distance_within(&[0b1010_1010, 0x01], &[0b0101_0101, 0x03], 72), Some(9));
    assert_eq!(distance_within(&[], &[1, 2, 3], 72), Some(0));
}

#[test]
fn sshash_is_ssdeep_hash_of_source() {
    let body = html(200);
    let expected = ssdeep::hash_buf(body.as_bytes()).unwrap().to_string();
    assert_eq!(get_sshash(&body), expected);
    assert_eq!(ssdeep::compare(&expected, &expected).unwrap(), 100);
}

#[test]
fn phash_of_screenshot_decodes_to_eight_bytes() {
    let text = get_phash(&png(3)).unwrap();
    let hash = image_hasher::ImageHash::<Box<[u8]>>::from_base64(&text).unwrap();
    assert_eq!(hash.as_bytes().len(), 8);
}

#[test]
fn phash_of_non_image_is_none() {
    assert_eq!(get_phash(&vec![1, 2, 3, 4]), None);
}

#[test]
fn captured_page_matches_itself() {
    let body = html(150);
    let p = build_page(&"http://site.test/".to_string(), body.clone(), 1_700_000_000, png(5)).unwrap();
    assert_eq!(p.uri, "http://site.test/");
    assert_eq!(p.html, body);
    assert_eq!(p.timestamp, 1_700_000_000);
    assert_eq!(p.image, Some(png(5)));
    assert_eq!(compare_pages(&p, &p), Ok([100, 100, 100]));
}

#[test]
fn captured_timestamp_keeps_low_32_bits() {
    let p = build_page(&"u".to_string(), html(10), (1i64 << 32) + 7, png(1)).unwrap();
    assert_eq!(p.timestamp, 7);
}

#[test]
fn capture_with_broken_screenshot_is_none() {
    assert!(build_page(&"u".to_string(), html(10), 5, vec![0, 1, 2]).is_none());
}

#[test]
fn compare_pages_with_changed_content() {
    let a = page("u", &html(200), "//////////8", 10);
    let b = page("u", &html(120), "//////////8", 20);
    let fuzzy = ssdeep::compare(&a.sshash, &b.sshash).unwrap();
    let overall = (fuzzy + 100) / 2;
    assert_eq!(compare_pages(&a, &b), Ok([overall, fuzzy, 100]));
}

#[test]
fn compare_pages_errors() {
    let good = page("u", &html(100), "//////////8", 1);
    let bad_phash = page("u", &html(100), "not base64!", 1);
    assert_eq!(compare_pages(&bad_phash, &good), Err(ComparisonError::FirstPhashUnreadable));
    assert_eq!(compare_pages(&good, &bad_phash), Err(ComparisonError::SecondPhashUnreadable));
    let empty_phash = page("u", &html(100), "", 1);
    assert_eq!(compare_pages(&empty_phash, &good), Err(ComparisonError::FirstPhashUnreadable));
    let mut bad_fuzzy = page("u", &html(100), "//////////8", 1);
    bad_fuzzy.sshash = "garbage".to_string();
    assert_eq!(compare_pages(&good, &bad_fuzzy), Err(ComparisonError::FuzzyHashUnreadable));
    let ones = page("u", &html(100), "/////////////w", 1);
    let zeros = page("u", &html(100), "AAAAAAAAAAAAAA", 1);
    assert_eq!(compare_pages(&ones, &zeros), Err(ComparisonError::DistanceTooLarge));
}

#[test]
fn perceptual_score_is_symmetric() {
    let a = page("u", &html(100), "//////////8", 1);
    let b = page("u", &html(100), "AAAAAAAAAAA", 1);
    let ab = compare_pages(&a, &b).unwrap();
    let ba = compare_pages(&b, &a).unwrap();
    assert_eq!(ab[2], ba[2]);
    assert_eq!(ab[2], 12);
}

#[test]
fn assess_alerts_below_threshold() {
    let a = page("http://site.test/", &html(100), "//////////8", 1_700_000_000);
    let result = assess(&monitor(101), &a, &a).unwrap();
    assert_eq!(result.similarity, [100, 100, 100]);
    assert!(result.alert);
    assert_eq!(result.log.log_type, "ALERT");
    assert_eq!(result.log.timestamp, 1_700_000_000);
    assert_eq!(
        result.log.message,
        "The uri:\"http://site.test/\" has been detected for potential defacement at timestamp:1700000000.Recorded cumulative hash similarity of: 100.SSHash similarity recorded as:100,and Phash similarity recorded as:100"
    );
}

#[test]
fn assess_logs_regular_behaviour() {
    let a = page("http://site.test/", &html(100), "//////////8", 42);
    let result = assess(&monitor(100), &a, &a).unwrap();
    assert!(!result.alert);
    assert_eq!(result.log.log_type, "LOG");
    assert_eq!(
        result.log.message,
        "The uri:\"http://site.test/\" has logged regular behaviour at timestamp:42.Recorded cumulative hash similarity of: 100.SSHash similarity recorded as:100,and Phash similarity recorded as:100"
    );
}

#[test]
fn assess_message_matches_format() {
    let a = page("http://site.test/", &html(200), "//////////8", 9);
    let b = page("http://site.test/", &html(60), "AAAAAAAAAAA", 3);
    let m = monitor(50);
    let result = assess(&m, &a, &b).unwrap();
    let s = result.similarity;
    let expected = if s[0] < 50 {
        format!("The uri:{:?} has been detected for potential defacement at timestamp:{:?}.Recorded cumulative hash similarity of: {:?}.SSHash similarity recorded as:{:?},and Phash similarity recorded as:{:?}", m.uri, 9u32, s[0], s[1], s[2])
    } else {
        format!("The uri:{:?} has logged regular behaviour at timestamp:{:?}.Recorded cumulative hash similarity of: {:?}.SSHash similarity recorded as:{:?},and Phash similarity recorded as:{:?}", m.uri, 9u32, s[0], s[1], s[2])
    };
    assert_eq!(result.log.message, expected);
    assert_eq!(result.alert, s[0] < 50);
}

#[test]
fn assess_reports_comparison_errors() {
    let a = page("u", &html(100), "//////////8", 1);
    let b = page("u", &html(100), "?", 1);
    assert!(matches!(assess(&monitor(50), &a, &b), Err(ComparisonError::SecondPhashUnreadable)));
}

#[test]
fn plan_without_capture() {
    assert!(plan_check(&monitor(50), None, 1000, false) == CheckPlan::CaptureFirst);
}

#[test]
fn plan_with_stale_and_fresh_captures() {
    let m = monitor(50); // frequency 600
    let old = page("u", &html(10), "//////////8", 300);
    let recent = page("u", &html(10), "//////////8", 400);
    assert!(plan_check(&m, Some(&old), 1000, false) == CheckPlan::Recapture { cutoff: 400 });
    assert!(plan_check(&m, Some(&recent), 1000, false) == CheckPlan::Fresh { cutoff: 400 });
    assert!(plan_check(&m, Some(&recent), 1000, true) == CheckPlan::Recapture { cutoff: 1000 });
    let now = page("u", &html(10), "//////////8", 1000);
    assert!(plan_check(&m, Some(&now), 1000, true) == CheckPlan::Fresh { cutoff: 1000 });
}

#[test]
fn cutoffs() {
    assert_eq!(expiry_cutoff(1000, 600, false), 400);
    assert_eq!(expiry_cutoff(1000, 600, true), 1000);
    assert_eq!(retention_cutoff(90000, 86400), 3600);
    assert_eq!(now_seconds(1_700_000_000), 1_700_000_000);
    assert_eq!(now_seconds((1i64 << 32) + 5), 5);
}

#[test]
fn new_monitor_needs_all_fields() {
    let uri = "http://site.test/".to_string();
    assert!(matches!(new_monitor(None, Some(&1), None, None), Ok(None)));
    assert!(matches!(new_monitor(Some(&uri), None, Some(&1), Some(&1)), Err(MissingMonitorField::Frequency)));
    assert!(matches!(new_monitor(Some(&uri), Some(&1), None, None), Err(MissingMonitorField::Threshold)));
    assert!(matches!(new_monitor(Some(&uri), Some(&1), Some(&2), None), Err(MissingMonitorField::Retention)));
    let m = new_monitor(Some(&uri), Some(&60), Some(&70), Some(&3600)).unwrap().unwrap();
    assert_eq!(m.uri, uri);
    assert_eq!((m.frequency, m.threshold, m.retention), (60, 70, 3600));
}

#[test]
fn log_entry_fields() {
    let log = get_logs(&77, &"ALERT".to_string(), &"changed".to_string());
    assert_eq!(log.timestamp, 77);
    assert_eq!(log.log_type, "ALERT");
    assert_eq!(log.message, "changed");
}

#[test]
fn phash_text_is_base64_of_default_hash() {
    let shot = png(7);
    let text = get_phash(&shot).unwrap();
    assert_eq!(get_phash(&shot), Some(text.clone()));
    let img = image::load_from_memory(&shot).unwrap();
    let hash = image_hasher::HasherConfig::new().to_hasher().hash_image(&img);
    assert_eq!(text, hash.to_base64());
}

#[test]
fn capture_stores_phash_of_its_screenshot() {
    let shot = png(9);
    let body = html(40);
    let p = build_page(&"u".to_string(), body.clone(), 100, shot.clone()).unwrap();
    assert_eq!(Some(p.phash.clone()), get_phash(&shot));
    assert_eq!(p.sshash, get_sshash(&body));
}

#[test]
fn stored_hashes_compared_with_themselves() {
    let mut stored = page("u", "", "AQIDBAUGBwg", 1);
    stored.sshash = "6:3ll7QzDkmJmMHkQoO/llSZEnEuLszmbMAWn:VqDk5QtLbW".to_string();
    assert_eq!(compare_pages(&stored, &stored), Ok([100, 100, 100]));
}

#[test]
fn comparison_of_two_captures_both_ways() {
    let mut a = page("u", "", "//////////8", 1);
    a.sshash = "6:3ll7QzDkmJmMHkQoO/llSZEnEuLszmbMAWn:VqDk5QtLbW".to_string();
    let mut b = page("u", "", "/////////w8", 2);
    b.sshash = "6:3ll7QzDkmQjmMoDHglHOxPWT0lT0lT0lB:VqDk+n".to_string();
    let ab = compare_pages(&a, &b).unwrap();
    let ba = compare_pages(&b, &a).unwrap();
    assert_eq!(ab, ba);
    // fuzzy 46 (ffuzzy's documented example), distance 4: perceptual 95, overall 70
    assert_eq!(ab, [70, 46, 95]);
}
