//! The monitor: pages are fingerprinted by an ssdeep hash of their HTML and a
//! perceptual hash of their screenshot; a fresh capture is compared with the
//! latest stored one, and a similarity below the monitor's threshold raises
//! an alert.
use vstd::prelude::*;
use vstd::string::*;
use crate::fuzzy::{fuzzy_compare, fuzzy_hash, ssdeep_hash, ssdeep_score, utf8_bytes, MAX_FUZZY_INPUT};
use crate::phash::{
    distance_within, hamming, hash_screenshot, lemma_hamming_self, lemma_hamming_symmetric,
    phash_as_bytes, base64_decode, base64_encode, lemma_base64_round_trip, phash_from_base64,
    phash_to_base64, image_decodes, lemma_base64_injective, phash_bytes, lemma_base64_decode_empty,
};
use image_hasher::ImageHash;
use crate::text::{debug_quoted, debug_str, decimal, decimal_string};

verus! {

/// A monitored page: how often it is checked (seconds), the similarity below
/// which a change is an alert, and how long captures are kept (seconds).
#[derive(Debug)]
pub struct Monitor {
    pub uri: String,
    pub frequency: u32,
    pub threshold: u32,
    pub retention: u32,
}

/// A capture of a page: its source, when it was taken, the screenshot (when
/// kept in memory), and the two hashes.
#[derive(Debug)]
pub struct Page {
    pub uri: String,
    pub html: String,
    pub timestamp: u32,
    pub sshash: String,
    pub image: Option<Vec<u8>>,
    pub phash: String,
}

/// An entry of the log table.
pub struct Logging {
    pub timestamp: u32,
    pub log_type: String,
    pub message: String,
}

/// The ssdeep hash of a page source.
pub fn get_sshash(html: &String) -> (hash: String)
    requires
        utf8_bytes(html@).len() <= MAX_FUZZY_INPUT,
    ensures
        hash@ == ssdeep_hash(utf8_bytes(html@)),
        ssdeep_score(hash@, hash@) == Some(100u32),
{
    fuzzy_hash(html.as_str().as_bytes())
}

/// The text is the Base64 encoding of the bytes of an 8-byte perceptual hash
/// value (one that the hasher produced, rather than bytes made up).
pub open spec fn is_hash_encoding(text: Seq<char>) -> bool {
    exists|hash: ImageHash<Box<[u8]>>|
        #[trigger] phash_bytes(hash).len() == 8 && text == base64_encode(phash_bytes(hash))
}

/// The perceptual hash of a screenshot, as unpadded standard Base64 of an
/// 8-byte hash; `None` where the screenshot is not an image that can be
/// decoded.
pub fn get_phash(image: &Vec<u8>) -> (phash: Option<String>)
    ensures
        match phash {
            Some(text) => image_decodes(image@) && phash_readable(text@) && base64_decode(
                text@,
            ).unwrap().len() == 8 && is_hash_encoding(text@),
            None => !image_decodes(image@),
        },
{
    match hash_screenshot(image.as_slice()) {
        Ok(hash) => {
            let text = phash_to_base64(&hash);
            proof {
                lemma_base64_round_trip(phash_bytes(hash));
                assert(phash_bytes(hash).len() == 8 && text@ == base64_encode(phash_bytes(hash)));
            }
            Some(text)
        },
        Err(_) => None,
    }
}


/// Why two captures could not be compared.
#[derive(Debug, PartialEq, Eq, Structural)]
pub enum ComparisonError {
    /// The first page's perceptual hash is not readable Base64 of a non-empty hash.
    FirstPhashUnreadable,
    /// The second page's perceptual hash is not readable Base64 of a non-empty hash.
    SecondPhashUnreadable,
    /// One of the ssdeep hashes does not parse.
    FuzzyHashUnreadable,
    /// The perceptual hashes differ in more than 72 bits, past the scale of the score.
    DistanceTooLarge,
}

/// A stored perceptual hash decodes to a non-empty hash.
pub open spec fn phash_readable(text: Seq<char>) -> bool {
    base64_decode(text) matches Some(bytes) && bytes.len() > 0
}

/// The perceptual similarity (0 to 100) at a Hamming distance (up to 72).
pub open spec fn perceptual_similarity(distance: int) -> int {
    100 - (100 * distance) / 72
}

/// The overall similarity: the mean of the fuzzy and perceptual similarities.
pub open spec fn overall_similarity(fuzzy: int, perceptual: int) -> int {
    (fuzzy + perceptual) / 2
}

/// The similarity triple: overall, fuzzy, perceptual.
pub open spec fn similarity_triple(fuzzy: int, distance: int) -> Seq<int> {
    seq![
        overall_similarity(fuzzy, perceptual_similarity(distance)),
        fuzzy,
        perceptual_similarity(distance),
    ]
}

/// What comparing two captures gives, from their stored hashes.
pub open spec fn page_comparison(
    sshash1: Seq<char>,
    phash1: Seq<char>,
    sshash2: Seq<char>,
    phash2: Seq<char>,
) -> Result<Seq<int>, ComparisonError> {
    if !phash_readable(phash1) {
        Err(ComparisonError::FirstPhashUnreadable)
    } else if !phash_readable(phash2) {
        Err(ComparisonError::SecondPhashUnreadable)
    } else {
        match ssdeep_score(sshash1, sshash2) {
            None => Err(ComparisonError::FuzzyHashUnreadable),
            Some(fuzzy) => {
                let distance = hamming(base64_decode(phash1).unwrap(), base64_decode(phash2).unwrap());
                if distance <= 72 {
                    Ok(similarity_triple(fuzzy as int, distance as int))
                } else {
                    Err(ComparisonError::DistanceTooLarge)
                }
            },
        }
    }
}

/// Every score lies between 0 and 100, and the overall score (first) lies
/// between the fuzzy (second) and the perceptual (third) ones.
pub open spec fn scores_in_range(scores: Seq<int>) -> bool {
    &&& forall|i: int| 0 <= i < 3 ==> 0 <= #[trigger] scores[i] <= 100
    &&& scores[1] <= scores[2] ==> scores[1] <= scores[0] <= scores[2]
    &&& scores[2] <= scores[1] ==> scores[2] <= scores[0] <= scores[1]
}

/// The three similarity scores of two captures, as integers.
pub open spec fn triple_of(scores: [u32; 3]) -> Seq<int> {
    seq![scores@[0] as int, scores@[1] as int, scores@[2] as int]
}

/// The similarity scores for an ssdeep score and a perceptual Hamming
/// distance: `[overall, fuzzy, perceptual]`.
pub fn similarity_scores(fuzzy: u32, distance: u32) -> (scores: [u32; 3])
    requires
        fuzzy <= 100,
        distance <= 72,
    ensures
        triple_of(scores) == similarity_triple(fuzzy as int, distance as int),
{
    proof {
        lemma_perceptual_range(distance as int);
    }
    let perceptual: u32 = 100 - ((100 * distance) / 72);
    let overall: u32 = (fuzzy + perceptual) / 2;
    [overall, fuzzy, perceptual]
}

/// Compares two captures: `[overall, fuzzy, perceptual]` similarity, each
/// from 0 (different) to 100 (identical).
pub fn compare_pages(page1: &Page, page2: &Page) -> (result: Result<[u32; 3], ComparisonError>)
    ensures
        match result {
            Ok(scores) => page_comparison(page1.sshash@, page1.phash@, page2.sshash@, page2.phash@)
                == Ok::<Seq<int>, ComparisonError>(triple_of(scores)),
            Err(e) => page_comparison(page1.sshash@, page1.phash@, page2.sshash@, page2.phash@)
                == Err::<Seq<int>, ComparisonError>(e),
        },
        result matches Ok(scores) ==> scores_in_range(triple_of(scores)),
        page1.sshash@ == page2.sshash@ && page1.phash@ == page2.phash@ && result is Ok ==> triple_of(
            result->Ok_0,
        ) == seq![100int, 100int, 100int],
{
    let old_phash = match phash_from_base64(page1.phash.as_str()) {
        Ok(hash) => hash,
        Err(_) => {
            proof {
                lemma_base64_decode_empty(page1.phash@);
            }
            return Err(ComparisonError::FirstPhashUnreadable);
        },
    };
    proof {
        lemma_base64_round_trip(phash_bytes(old_phash));
    }
    let new_phash = match phash_from_base64(page2.phash.as_str()) {
        Ok(hash) => hash,
        Err(_) => {
            proof {
                lemma_base64_decode_empty(page2.phash@);
            }
            return Err(ComparisonError::SecondPhashUnreadable);
        },
    };
    proof {
        lemma_base64_round_trip(phash_bytes(new_phash));
    }
    let fuzzy = match fuzzy_compare(page1.sshash.as_str(), page2.sshash.as_str()) {
        Ok(score) => score,
        Err(_) => {
            return Err(ComparisonError::FuzzyHashUnreadable);
        },
    };
    let distance = match distance_within(phash_as_bytes(&old_phash), phash_as_bytes(&new_phash), 72) {
        Some(d) => d,
        None => {
            return Err(ComparisonError::DistanceTooLarge);
        },
    };
    let scores = similarity_scores(fuzzy, distance);
    proof {
        lemma_scores_in_range(fuzzy as int, distance as int);
        if page1.phash@ == page2.phash@ {
            lemma_base64_injective(phash_bytes(old_phash), phash_bytes(new_phash));
            lemma_hamming_self(phash_bytes(old_phash));
        }
        assert(triple_of(scores) =~= similarity_triple(fuzzy as int, distance as int));
        assert(similarity_triple(100, 0) =~= seq![100int, 100int, 100int]);
    }
    Ok(scores)
}

/// The perceptual similarity of a distance up to 72 lies between 0 and 100.
proof fn lemma_perceptual_range(distance: int)
    requires
        0 <= distance <= 72,
    ensures
        0 <= perceptual_similarity(distance) <= 100,
{
    assert(0 <= 100 * distance <= 7200) by (nonlinear_arith)
        requires
            0 <= distance <= 72,
    ;
    assert(0 <= (100 * distance) / 72 <= 100) by (nonlinear_arith)
        requires
            0 <= 100 * distance <= 7200,
    ;
}


/// Every score lies between 0 and 100, and the overall score lies between the
/// fuzzy and the perceptual ones.
pub proof fn lemma_scores_in_range(fuzzy: int, distance: int)
    requires
        0 <= fuzzy <= 100,
        0 <= distance <= 72,
    ensures
        scores_in_range(similarity_triple(fuzzy, distance)),
{
    lemma_perceptual_range(distance);
}

/// The perceptual score is 100 exactly when the hashes agree in every bit.
pub proof fn lemma_perceptual_full_iff_identical(distance: int)
    requires
        0 <= distance,
    ensures
        perceptual_similarity(distance) == 100 <==> distance == 0,
{
    if distance > 0 {
        assert((100 * distance) / 72 >= 1) by (nonlinear_arith)
            requires
                distance >= 1,
        ;
    }
}

/// The perceptual score takes 100/72 points off per differing bit, rounding
/// the deduction down, and the overall score is the mean of the fuzzy and
/// perceptual scores rounded down.
pub proof fn lemma_score_arithmetic(fuzzy: int, distance: int)
    requires
        0 <= fuzzy,
        0 <= distance,
    ensures
        72 * (100 - perceptual_similarity(distance)) <= 100 * distance < 72 * (100
            - perceptual_similarity(distance)) + 72,
        2 * overall_similarity(fuzzy, perceptual_similarity(distance)) <= fuzzy
            + perceptual_similarity(distance) < 2 * overall_similarity(
            fuzzy,
            perceptual_similarity(distance),
        ) + 2,
{
}

/// A larger Hamming distance never gives a higher perceptual score.
pub proof fn lemma_perceptual_monotone(d1: int, d2: int)
    requires
        0 <= d1 <= d2,
    ensures
        perceptual_similarity(d2) <= perceptual_similarity(d1),
{
    assert(100 * d1 <= 100 * d2) by (nonlinear_arith)
        requires
            d1 <= d2,
    ;
    assert((100 * d1) / 72 <= (100 * d2) / 72) by (nonlinear_arith)
        requires
            100 * d1 <= 100 * d2,
    ;
}

/// A capture compared with itself is identical on every score, where its
/// perceptual hash is readable and its fuzzy hash matches itself fully (as
/// every hash that ssdeep generates does).
pub proof fn lemma_self_comparison(sshash: Seq<char>, phash: Seq<char>)
    requires
        phash_readable(phash),
        ssdeep_score(sshash, sshash) == Some(100u32),
    ensures
        page_comparison(sshash, phash, sshash, phash) == Ok::<Seq<int>, ComparisonError>(
            seq![100int, 100int, 100int],
        ),
{
    lemma_hamming_self(base64_decode(phash).unwrap());
    assert(similarity_triple(100, 0) =~= seq![100int, 100int, 100int]);
}

/// Swapping the two captures leaves the perceptual score unchanged.
pub proof fn lemma_perceptual_symmetric(
    sshash1: Seq<char>,
    phash1: Seq<char>,
    sshash2: Seq<char>,
    phash2: Seq<char>,
)
    requires
        page_comparison(sshash1, phash1, sshash2, phash2) is Ok,
        page_comparison(sshash2, phash2, sshash1, phash1) is Ok,
    ensures
        page_comparison(sshash1, phash1, sshash2, phash2)->Ok_0[2]
            == page_comparison(sshash2, phash2, sshash1, phash1)->Ok_0[2],
{
    lemma_hamming_symmetric(base64_decode(phash1).unwrap(), base64_decode(phash2).unwrap());
}


/// Captures a page from what the browser returned: its source, the Unix time
/// of the capture (kept, like the table's column, as 32 bits) and a PNG
/// screenshot. `None` where the screenshot cannot be decoded.
pub fn build_page(uri: &String, html: String, timestamp: i64, screenshot: Vec<u8>) -> (page: Option<Page>)
    requires
        utf8_bytes(html@).len() <= MAX_FUZZY_INPUT,
    ensures
        match page {
            None => !image_decodes(screenshot@),
            Some(p) => {
                &&& p.uri@ == uri@
                &&& p.html@ == html@
                &&& p.timestamp == timestamp as u32
                &&& p.image == Some(screenshot)
                &&& p.sshash@ == ssdeep_hash(utf8_bytes(html@))
                &&& image_decodes(screenshot@)
                &&& phash_readable(p.phash@)
                &&& base64_decode(p.phash@).unwrap().len() == 8
                &&& is_hash_encoding(p.phash@)
                &&& page_comparison(p.sshash@, p.phash@, p.sshash@, p.phash@) == Ok::<
                    Seq<int>,
                    ComparisonError,
                >(seq![100int, 100int, 100int])
            },
        },
{
    let sshash = get_sshash(&html);
    let phash = match get_phash(&screenshot) {
        Some(text) => text,
        None => {
            return None;
        },
    };
    proof {
        lemma_self_comparison(sshash@, phash@);
    }
    Some(Page { uri: uri.clone(), timestamp: timestamp as u32, html, image: Some(screenshot), sshash, phash })
}

/// The capture time as the monitor stores it: the Unix time truncated to 32 bits.
pub fn now_seconds(epoch_seconds: i64) -> (now: u32)
    ensures
        now == epoch_seconds as u32,
{
    epoch_seconds as u32
}

/// Captures older than this are expired for a monitor keeping them `retention` seconds.
pub fn retention_cutoff(now: u32, retention: u32) -> (cutoff: u32)
    requires
        retention <= now,
    ensures
        cutoff == now - retention,
{
    now - retention
}

/// The time before which the latest capture is stale: `frequency` seconds
/// ago, or now when the frequency is ignored.
pub open spec fn stale_before(now: u32, frequency: u32, ignore_frequency: bool) -> int {
    if ignore_frequency {
        now as int
    } else {
        now - frequency
    }
}

/// The time before which the latest capture is stale.
pub fn expiry_cutoff(now: u32, frequency: u32, ignore_frequency: bool) -> (cutoff: u32)
    requires
        ignore_frequency || frequency <= now,
    ensures
        cutoff == stale_before(now, frequency, ignore_frequency),
        !ignore_frequency ==> cutoff == now - frequency,
        ignore_frequency ==> cutoff == now,
{
    if ignore_frequency {
        now - 0
    } else {
        now - frequency
    }
}

/// The latest capture is stale exactly when it is more than `frequency`
/// seconds old, or, with the frequency ignored, whenever it is older than now.
pub proof fn lemma_stale_when_older_than_frequency(now: u32, frequency: u32, timestamp: u32)
    requires
        frequency <= now,
    ensures
        timestamp < stale_before(now, frequency, false) <==> timestamp + frequency < now,
        timestamp < stale_before(now, frequency, true) <==> timestamp < now,
{
}

/// A longer frequency never makes a capture stale sooner.
pub proof fn lemma_longer_frequency_later_recapture(now: u32, f1: u32, f2: u32)
    requires
        f1 <= f2 <= now,
    ensures
        stale_before(now, f2, false) <= stale_before(now, f1, false),
{
}

/// What a monitoring pass does for one monitor.
#[derive(Debug, PartialEq, Eq, Structural)]
pub enum CheckPlan {
    /// Nothing is stored for the page yet: capture it and store the capture.
    CaptureFirst,
    /// The latest capture is older than `cutoff`: capture again, store, compare and log.
    Recapture { cutoff: u32 },
    /// The latest capture is recent enough: nothing to do until `cutoff` passes it.
    Fresh { cutoff: u32 },
}

/// Decides what to do for a monitor, given its latest stored capture.
pub fn plan_check(monitor: &Monitor, latest: Option<&Page>, now: u32, ignore_frequency: bool) -> (plan: CheckPlan)
    requires
        latest is Some ==> ignore_frequency || monitor.frequency <= now,
    ensures
        match latest {
            None => plan == CheckPlan::CaptureFirst,
            Some(page) => {
                let cutoff = stale_before(now, monitor.frequency, ignore_frequency);
                if page.timestamp < cutoff {
                    plan == CheckPlan::Recapture { cutoff: cutoff as u32 }
                } else {
                    plan == CheckPlan::Fresh { cutoff: cutoff as u32 }
                }
            },
        },
        latest is Some && !ignore_frequency ==> (plan == (if latest.unwrap().timestamp + monitor.frequency
            < now {
            CheckPlan::Recapture { cutoff: (now - monitor.frequency) as u32 }
        } else {
            CheckPlan::Fresh { cutoff: (now - monitor.frequency) as u32 }
        })),
        latest is Some && ignore_frequency ==> (plan == (if latest.unwrap().timestamp < now {
            CheckPlan::Recapture { cutoff: now }
        } else {
            CheckPlan::Fresh { cutoff: now }
        })),
{
    match latest {
        None => CheckPlan::CaptureFirst,
        Some(page) => {
            let cutoff = expiry_cutoff(now, monitor.frequency, ignore_frequency);
            if page.timestamp < cutoff {
                CheckPlan::Recapture { cutoff }
            } else {
                CheckPlan::Fresh { cutoff }
            }
        },
    }
}

/// The monitoring field that a new monitor lacks.
#[derive(Debug, PartialEq, Eq, Structural)]
pub enum MissingMonitorField {
    Frequency,
    Threshold,
    Retention,
}

/// The monitor to add for the command-line options: none without a URI; with
/// a URI, the frequency, threshold and retention are all needed, checked in
/// that order.
pub fn new_monitor(
    uri: Option<&String>,
    frequency: Option<&u32>,
    threshold: Option<&u32>,
    retention: Option<&u32>,
) -> (monitor: Result<Option<Monitor>, MissingMonitorField>)
    ensures
        uri is None ==> monitor matches Ok(None),
        uri is Some && frequency is None ==> monitor == Err::<Option<Monitor>, MissingMonitorField>(
            MissingMonitorField::Frequency,
        ),
        uri is Some && frequency is Some && threshold is None ==> monitor == Err::<
            Option<Monitor>,
            MissingMonitorField,
        >(MissingMonitorField::Threshold),
        uri is Some && frequency is Some && threshold is Some && retention is None ==> monitor
            == Err::<Option<Monitor>, MissingMonitorField>(MissingMonitorField::Retention),
        uri is Some && frequency is Some && threshold is Some && retention is Some ==> (monitor matches Ok(
            Some(m),
        ) && m.uri@ == uri.unwrap()@ && m.frequency == *frequency.unwrap() && m.threshold
            == *threshold.unwrap() && m.retention == *retention.unwrap()),
{
    match uri {
        None => Ok(None),
        Some(u) => match frequency {
            None => Err(MissingMonitorField::Frequency),
            Some(f) => match threshold {
                None => Err(MissingMonitorField::Threshold),
                Some(t) => match retention {
                    None => Err(MissingMonitorField::Retention),
                    Some(r) => Ok(
                        Some(Monitor { uri: u.clone(), frequency: *f, threshold: *t, retention: *r }),
                    ),
                },
            },
        },
    }
}

/// A log entry for a capture.
pub fn get_logs(page_timestamp: &u32, log_type: &String, message: &String) -> (log: Logging)
    ensures
        log.timestamp == *page_timestamp,
        log.log_type@ == log_type@,
        log.message@ == message@,
{
    Logging { timestamp: *page_timestamp, log_type: log_type.clone(), message: message.clone() }
}

/// The part of a log message after the event: the capture time and the three scores.
pub open spec fn report_tail(timestamp: u32, scores: Seq<int>) -> Seq<char> {
    " at timestamp:"@ + decimal(timestamp as nat) + ".Recorded cumulative hash similarity of: "@
        + decimal(scores[0] as nat) + ".SSHash similarity recorded as:"@ + decimal(
        scores[1] as nat,
    ) + ",and Phash similarity recorded as:"@ + decimal(scores[2] as nat)
}

/// The message of an alert.
pub open spec fn alert_message(uri: Seq<char>, timestamp: u32, scores: Seq<int>) -> Seq<char> {
    "The uri:"@ + debug_str(uri) + " has been detected for potential defacement"@ + report_tail(
        timestamp,
        scores,
    )
}

/// The message of a regular log entry.
pub open spec fn regular_message(uri: Seq<char>, timestamp: u32, scores: Seq<int>) -> Seq<char> {
    "The uri:"@ + debug_str(uri) + " has logged regular behaviour"@ + report_tail(timestamp, scores)
}

/// A comparison is an alert when the overall similarity is below the threshold.
pub open spec fn is_alert(overall: int, threshold: u32) -> bool {
    overall < threshold
}

/// Every overall similarity below the threshold is an alert, however far
/// below, and no similarity at or above it is.
pub proof fn lemma_alert_exactly_below_threshold(overall: int, threshold: u32)
    ensures
        overall < threshold ==> is_alert(overall, threshold),
        threshold <= overall ==> !is_alert(overall, threshold),
{
}

/// Lowering the overall similarity never removes an alert.
pub proof fn lemma_alert_monotone(lower: int, higher: int, threshold: u32)
    requires
        lower <= higher,
        is_alert(higher, threshold),
    ensures
        is_alert(lower, threshold),
{
}

/// The outcome of comparing a fresh capture with the latest stored one.
pub struct Assessment {
    pub similarity: [u32; 3],
    pub alert: bool,
    pub log: Logging,
}

fn report_message(uri: &String, timestamp: u32, scores: [u32; 3], alert: bool) -> (message: String)
    ensures
        message@ == (if alert {
            alert_message(uri@, timestamp, triple_of(scores))
        } else {
            regular_message(uri@, timestamp, triple_of(scores))
        }),
{
    let mut message = String::from_str("The uri:");
    let quoted = debug_quoted(uri.as_str());
    message.append(quoted.as_str());
    if alert {
        message.append(" has been detected for potential defacement");
    } else {
        message.append(" has logged regular behaviour");
    }
    message.append(" at timestamp:");
    message.append(decimal_string(timestamp as u64).as_str());
    message.append(".Recorded cumulative hash similarity of: ");
    message.append(decimal_string(scores[0] as u64).as_str());
    message.append(".SSHash similarity recorded as:");
    message.append(decimal_string(scores[1] as u64).as_str());
    message.append(",and Phash similarity recorded as:");
    message.append(decimal_string(scores[2] as u64).as_str());
    proof {
        if alert {
            assert(message@ =~= alert_message(uri@, timestamp, triple_of(scores)));
        } else {
            assert(message@ =~= regular_message(uri@, timestamp, triple_of(scores)));
        }
    }
    message
}

/// Compares a fresh capture with the latest stored one and writes the log
/// entry: an alert when the overall similarity is below the monitor's
/// threshold, a regular entry otherwise.
pub fn assess(monitor: &Monitor, new_page: &Page, latest_page: &Page) -> (result: Result<Assessment, ComparisonError>)
    ensures
        match result {
            Ok(a) => {
                &&& page_comparison(new_page.sshash@, new_page.phash@, latest_page.sshash@, latest_page.phash@)
                    == Ok::<Seq<int>, ComparisonError>(triple_of(a.similarity))
                &&& scores_in_range(triple_of(a.similarity))
                &&& a.alert == is_alert(a.similarity@[0] as int, monitor.threshold)
                &&& a.alert == (a.similarity@[0] < monitor.threshold)
                &&& a.log.timestamp == new_page.timestamp
                &&& a.log.log_type@ == (if a.alert { "ALERT"@ } else { "LOG"@ })
                &&& a.log.message@ == (if a.alert {
                    alert_message(monitor.uri@, new_page.timestamp, triple_of(a.similarity))
                } else {
                    regular_message(monitor.uri@, new_page.timestamp, triple_of(a.similarity))
                })
            },
            Err(e) => page_comparison(new_page.sshash@, new_page.phash@, latest_page.sshash@, latest_page.phash@)
                == Err::<Seq<int>, ComparisonError>(e),
        },
{
    let similarity = compare_pages(new_page, latest_page)?;
    let alert = similarity[0] < monitor.threshold;
    let log_type = if alert {
        String::from_str("ALERT")
    } else {
        String::from_str("LOG")
    };
    let message = report_message(&monitor.uri, new_page.timestamp, similarity, alert);
    let log = get_logs(&new_page.timestamp, &log_type, &message);
    Ok(Assessment { similarity, alert, log })
}

} // verus!
