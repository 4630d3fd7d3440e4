//! The fuzzy-hash watcher: each monitored page's latest sample is compared
//! with a fresh one by ssdeep similarity alone, and the similarity is logged
//! as an alert below the monitor's threshold, or as a plain log entry in the
//! uncertain band between 50 and 70.
use vstd::prelude::*;
use vstd::string::*;
use crate::fuzzy::{fuzzy_compare, fuzzy_hash, ssdeep_hash, ssdeep_score, utf8_bytes, MAX_FUZZY_INPUT};
use crate::text::{debug_quoted, debug_str, signed_decimal, signed_decimal_string};

verus! {

/// A similarity reading for a page.
pub struct Logging {
    pub timestamp: i64,
    pub uri: String,
    pub similarity: u32,
}

/// The row that a similarity reading adds to the log table.
#[derive(Debug, PartialEq, Eq, Structural)]
pub enum LogAction {
    /// A similarity below the monitor's threshold.
    Alert,
    /// A similarity between 50 and 70 (both excluded) that is not an alert.
    Log,
}

/// The action a reading is logged with.
pub open spec fn log_action(similarity: u32, threshold: u32) -> Option<LogAction> {
    if similarity < threshold {
        Some(LogAction::Alert)
    } else if similarity > 50 && similarity < 70 {
        Some(LogAction::Log)
    } else {
        None
    }
}

/// Every reading below the threshold is an alert, whatever the similarity
/// (a page that shares nothing with its stored sample, at 0, included).
pub proof fn lemma_below_threshold_alerts(similarity: u32, threshold: u32)
    requires
        similarity < threshold,
    ensures
        log_action(similarity, threshold) == Some(LogAction::Alert),
{
}

/// A reading at or above the threshold is never an alert: it is a plain log
/// entry exactly when it lies strictly between 50 and 70.
pub proof fn lemma_at_or_above_threshold(similarity: u32, threshold: u32)
    requires
        threshold <= similarity,
    ensures
        log_action(similarity, threshold) != Some(LogAction::Alert),
        log_action(similarity, threshold) == Some(LogAction::Log) <==> 50 < similarity < 70,
        log_action(similarity, threshold) is None <==> !(50 < similarity < 70),
{
}

/// Lowering a reading never turns an alert into something milder: whatever
/// alerts at some similarity alerts at every lower similarity.
pub proof fn lemma_alert_downward_closed(lower: u32, higher: u32, threshold: u32)
    requires
        lower <= higher,
        log_action(higher, threshold) == Some(LogAction::Alert),
    ensures
        log_action(lower, threshold) == Some(LogAction::Alert),
{
}

impl LogAction {
    /// The text of the `action` column for this row.
    pub fn label(&self) -> (label: &'static str)
        ensures
            label@ == (match self {
                LogAction::Alert => "ALERT"@,
                LogAction::Log => "Log"@,
            }),
    {
        match self {
            LogAction::Alert => "ALERT",
            LogAction::Log => "Log",
        }
    }
}

impl Logging {
    /// A reading of `similarity` for `uri` at `timestamp`.
    pub fn new(timestamp: i64, uri: String, similarity: u32) -> (log: Logging)
        ensures
            log.timestamp == timestamp,
            log.uri == uri,
            log.similarity == similarity,
    {
        Logging { timestamp, uri, similarity }
    }

    /// Which row, if any, the reading adds to the log table under `threshold`.
    pub fn check(logs: &Logging, threshold: u32) -> (action: Option<LogAction>)
        ensures
            action == log_action(logs.similarity, threshold),
            logs.similarity < threshold ==> action == Some(LogAction::Alert),
            threshold <= logs.similarity && 50 < logs.similarity < 70 ==> action == Some(
                LogAction::Log,
            ),
            threshold <= logs.similarity && !(50 < logs.similarity < 70) ==> action is None,
    {
        if logs.similarity < threshold {
            Some(LogAction::Alert)
        } else if logs.similarity > 50 && logs.similarity < 70 {
            Some(LogAction::Log)
        } else {
            None
        }
    }
}

/// A watched page: its row id once stored, how often it is sampled
/// (seconds), and the similarity below which a change is an alert.
#[derive(Debug)]
pub struct Monitor {
    pub id: Option<i64>,
    pub uri: String,
    pub frequency: i64,
    pub threshold: u32,
}

/// The statement that saving a monitor runs.
pub enum MonitorWrite {
    /// Update the stored row `id` with the URI and frequency.
    Update { uri: String, frequency: i64, id: i64 },
    /// Insert a new row with the URI and frequency.
    Insert { uri: String, frequency: i64 },
}

/// The statement that saving a monitor with this row id, URI and frequency runs.
pub open spec fn save_statement(id: Option<i64>, uri: String, frequency: i64) -> MonitorWrite {
    match id {
        Some(row) => MonitorWrite::Update { uri, frequency, id: row },
        None => MonitorWrite::Insert { uri, frequency },
    }
}

/// Once a new monitor's insert has given it a row id, saving it again
/// updates that row, with the same URI and frequency.
pub proof fn lemma_saved_monitor_updates_its_row(before: Monitor, after: Monitor, rowid: i64)
    requires
        before.id is None,
        after.id == Some(rowid),
        after.uri == before.uri,
        after.frequency == before.frequency,
    ensures
        save_statement(before.id, before.uri, before.frequency) == (MonitorWrite::Insert {
            uri: before.uri,
            frequency: before.frequency,
        }),
        save_statement(after.id, after.uri, after.frequency) == (MonitorWrite::Update {
            uri: before.uri,
            frequency: before.frequency,
            id: rowid,
        }),
{
}

/// How `{:?}` prints an optional row id.
pub open spec fn debug_row_id(id: Option<i64>) -> Seq<char> {
    match id {
        Some(n) => "Some("@ + signed_decimal(n as int) + ")"@,
        None => "None"@,
    }
}

/// The one-line description of a monitor.
pub open spec fn monitor_description(id: Option<i64>, uri: Seq<char>, frequency: i64) -> Seq<char> {
    "id:"@ + debug_row_id(id) + ", uri:"@ + debug_str(uri) + ", frequency:"@ + signed_decimal(
        frequency as int,
    )
}

impl Monitor {
    /// A monitor that is not stored yet.
    pub fn new(uri: &str, frequency: i64, threshold: u32) -> (m: Monitor)
        ensures
            m.id is None,
            m.uri@ == uri@,
            m.frequency == frequency,
            m.threshold == threshold,
    {
        Monitor { id: None, uri: uri.to_owned(), frequency, threshold }
    }

    /// A monitor for the stored row `id`.
    pub fn newwithid(id: i64, uri: &str, frequency: i64, threshold: u32) -> (m: Monitor)
        ensures
            m.id == Some(id),
            m.uri@ == uri@,
            m.frequency == frequency,
            m.threshold == threshold,
    {
        Monitor { id: Some(id), uri: uri.to_owned(), frequency, threshold }
    }

    /// The URIs of the monitors, in order.
    pub fn repr(destinations: Vec<Monitor>) -> (uris: Vec<String>)
        ensures
            uris@.len() == destinations@.len(),
            forall|i: int| 0 <= i < uris@.len() ==> #[trigger] uris@[i] == destinations@[i].uri,
    {
        let mut uris: Vec<String> = Vec::new();
        let n = destinations.len();
        let mut i: usize = 0;
        while i < n
            invariant
                n == destinations@.len(),
                i <= n,
                uris@.len() == i,
                forall|j: int| 0 <= j < i ==> #[trigger] uris@[j] == destinations@[j].uri,
            decreases n - i,
        {
            uris.push(destinations[i].uri.clone());
            i = i + 1;
        }
        uris
    }

    /// The statement that saving the monitor runs: an update of its row when
    /// it is stored, an insert otherwise.
    pub fn save_write(&self) -> (write: MonitorWrite)
        ensures
            write == save_statement(self.id, self.uri, self.frequency),
    {
        match self.id {
            Some(id) => MonitorWrite::Update { uri: self.uri.clone(), frequency: self.frequency, id },
            None => MonitorWrite::Insert { uri: self.uri.clone(), frequency: self.frequency },
        }
    }

    /// Records the row id that the insert of a new monitor was given.
    pub fn record_insert(&mut self, rowid: i64)
        requires
            old(self).id is None,
        ensures
            final(self).id == Some(rowid),
            final(self).uri == old(self).uri,
            final(self).frequency == old(self).frequency,
            final(self).threshold == old(self).threshold,
    {
        self.id = Some(rowid);
    }

    /// `id:.., uri:.., frequency:..`, each value as `{:?}` prints it.
    pub fn describe(&self) -> (text: String)
        ensures
            text@ == monitor_description(self.id, self.uri@, self.frequency),
    {
        let mut text = String::from_str("id:");
        match self.id {
            Some(n) => {
                text.append("Some(");
                text.append(signed_decimal_string(n).as_str());
                text.append(")");
            },
            None => {
                text.append("None");
            },
        }
        text.append(", uri:");
        text.append(debug_quoted(self.uri.as_str()).as_str());
        text.append(", frequency:");
        text.append(signed_decimal_string(self.frequency).as_str());
        proof {
            assert(text@ =~= monitor_description(self.id, self.uri@, self.frequency));
        }
        text
    }
}

/// How long samples are kept, in seconds (one month).
pub const SAMPLE_RETENTION: i64 = 2629743;

/// A sample of a page: its source, when it was taken, and its ssdeep hash.
#[derive(Debug)]
pub struct Page {
    pub uri: Option<String>,
    pub html: String,
    pub timestamp: i64,
    pub sshash: String,
}

impl Page {
    /// A sample of `uri` from the source the browser returned at `timestamp`.
    pub fn new(uri: &str, html: String, timestamp: i64) -> (page: Page)
        requires
            utf8_bytes(html@).len() <= MAX_FUZZY_INPUT,
        ensures
            page.uri matches Some(u) && u@ == uri@,
            page.html == html,
            page.timestamp == timestamp,
            page.sshash@ == ssdeep_hash(utf8_bytes(html@)),
            ssdeep_score(page.sshash@, page.sshash@) == Some(100u32),
    {
        let sshash = Self::hashvalues(html.as_str());
        Page { uri: Some(uri.to_owned()), html, timestamp, sshash }
    }

    /// The ssdeep hash of a page source.
    pub fn hashvalues(html: &str) -> (hash: String)
        requires
            utf8_bytes(html@).len() <= MAX_FUZZY_INPUT,
        ensures
            hash@ == ssdeep_hash(utf8_bytes(html@)),
            ssdeep_score(hash@, hash@) == Some(100u32),
    {
        fuzzy_hash(html.as_bytes())
    }

    /// The time before which a stored sample is older than the monitor's frequency.
    pub fn oldest_sample(now: i64, frequency: i64) -> (oldest: i64)
        requires
            i64::MIN <= now - frequency <= i64::MAX,
        ensures
            oldest == now - frequency,
    {
        now - frequency
    }

    /// The similarity reading for a fresh sample against the stored one (the
    /// ssdeep score of the stored hash against the fresh one, at the fresh
    /// sample's time) and the log row that the monitor's threshold calls for:
    /// an alert below the threshold, a plain entry strictly between 50 and
    /// 70, none otherwise. `None` where a hash does not parse.
    pub fn compare(monitor: &Monitor, stored: &Page, fresh: &Page) -> (reading: Option<(Logging, Option<LogAction>)>)
        ensures
            match reading {
                Some((log, action)) => {
                    &&& ssdeep_score(stored.sshash@, fresh.sshash@) == Some(log.similarity)
                    &&& log.similarity <= 100
                    &&& log.timestamp == fresh.timestamp
                    &&& log.uri == monitor.uri
                    &&& action == log_action(log.similarity, monitor.threshold)
                    &&& log.similarity < monitor.threshold ==> action == Some(LogAction::Alert)
                    &&& monitor.threshold <= log.similarity && 50 < log.similarity < 70 ==> action
                        == Some(LogAction::Log)
                    &&& monitor.threshold <= log.similarity && !(50 < log.similarity < 70)
                        ==> action is None
                },
                None => ssdeep_score(stored.sshash@, fresh.sshash@) is None,
            },
    {
        match fuzzy_compare(stored.sshash.as_str(), fresh.sshash.as_str()) {
            Ok(score) => {
                let log = Logging::new(fresh.timestamp, monitor.uri.clone(), score);
                let action = Logging::check(&log, monitor.threshold);
                Some((log, action))
            },
            Err(_) => None,
        }
    }

    /// The time before which stored samples are older than the retention
    /// period (`SAMPLE_RETENTION`, one month).
    pub fn retention_cutoff(now: i64) -> (cutoff: i64)
        requires
            now - SAMPLE_RETENTION >= i64::MIN,
        ensures
            cutoff == now - SAMPLE_RETENTION,
    {
        now - SAMPLE_RETENTION
    }

    /// The key of the sample's row, `(timestamp, uri)`; only a sample with a
    /// URI is saved or removed.
    pub fn sample_key(&self) -> (key: Option<(i64, String)>)
        ensures
            match self.uri {
                Some(u) => key matches Some((t, k)) && t == self.timestamp && k == u,
                None => key is None,
            },
    {
        match &self.uri {
            Some(u) => Some((self.timestamp, u.clone())),
            None => None,
        }
    }
}

/// A sample compared with itself reads 100, which is never logged below a
/// threshold of at most 100.
pub proof fn lemma_unchanged_page_not_alerted(sshash: Seq<char>, threshold: u32)
    requires
        ssdeep_score(sshash, sshash) == Some(100u32),
        threshold <= 100,
    ensures
        log_action(ssdeep_score(sshash, sshash).unwrap(), threshold) is None,
{
}

} // verus!
