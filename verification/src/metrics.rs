//! Counters of what the gateway did, kept in memory under keys made of a
//! metric's name and its labels.

use vstd::prelude::*;
use vstd::string::*;
use crate::text::{
    chars_of, decimal, find_char, find_char_from, find_char_in, lemma_find_char_from_is_first,
    push_decimal, str_eq,
};

verus! {

/// Counts the auth requests, labelled by the status they ended with.
pub const AUTH_REQUESTS_TOTAL: &'static str = "byoidc_auth_requests_total";

/// Counts the failures of the auth service, labelled by their type.
pub const AUTH_SERVICE_ERRORS_TOTAL: &'static str = "byoidc_auth_service_errors_total";

/// Counts the times the configuration was loaded, labelled by how that ended.
pub const CONFIG_RELOAD_TOTAL: &'static str = "byoidc_config_reload_total";

/// One label as it stands in a key: `name=value`.
pub open spec fn label_text(label: (Seq<char>, Seq<char>)) -> Seq<char> {
    label.0 + "="@ + label.1
}

/// The labels as they stand in a key: each as `name=value`, with commas between.
pub open spec fn labels_text(labels: Seq<(Seq<char>, Seq<char>)>) -> Seq<char>
    decreases labels.len(),
{
    if labels.len() == 0 {
        Seq::empty()
    } else if labels.len() == 1 {
        label_text(labels[0])
    } else {
        labels_text(labels.drop_last()) + ","@ + label_text(labels.last())
    }
}

/// The key under which a metric with these labels is counted: the bare name
/// where there are no labels, else the name, a colon and the labels.
pub open spec fn metric_key(name: Seq<char>, labels: Seq<(Seq<char>, Seq<char>)>) -> Seq<char> {
    if labels.len() == 0 {
        name
    } else {
        name + ":"@ + labels_text(labels)
    }
}

/// The metric's name in a key: what stands before its first colon.
pub open spec fn key_name(key: Seq<char>) -> Seq<char> {
    match find_char(key, ':') {
        Some(colon) => key.subrange(0, colon),
        None => key,
    }
}

/// The labels in a key: what follows its first colon.
pub open spec fn key_labels(key: Seq<char>) -> Seq<char> {
    match find_char(key, ':') {
        Some(colon) => key.subrange(colon + 1, key.len() as int),
        None => Seq::empty(),
    }
}

/// The position of the counter with this key.
pub open spec fn position_of(counters: Seq<(Seq<char>, u64)>, key: Seq<char>, from: int)
    -> Option<int>
    decreases counters.len() - from,
{
    if from < 0 || from >= counters.len() {
        None
    } else if counters[from].0 == key {
        Some(from)
    } else {
        position_of(counters, key, from + 1)
    }
}

/// The count under `key`; a key that was never counted stands at zero.
pub open spec fn count_of(counters: Seq<(Seq<char>, u64)>, key: Seq<char>) -> u64 {
    match position_of(counters, key, 0) {
        Some(i) => counters[i].1,
        None => 0,
    }
}

/// The counters after one more event under `key`.
pub open spec fn counted(counters: Seq<(Seq<char>, u64)>, key: Seq<char>) -> Seq<
    (Seq<char>, u64),
> {
    match position_of(counters, key, 0) {
        Some(i) => counters.update(i, (key, (counters[i].1 + 1) as u64)),
        None => counters.push((key, 1u64)),
    }
}

/// The number of all events that were counted.
pub open spec fn sum_counts(counters: Seq<(Seq<char>, u64)>) -> nat
    decreases counters.len(),
{
    if counters.len() == 0 {
        0
    } else {
        sum_counts(counters.drop_last()) + counters.last().1 as nat
    }
}

/// The number of events that were counted for the metric `name`, whatever
/// their labels.
pub open spec fn total_of(counters: Seq<(Seq<char>, u64)>, name: Seq<char>) -> nat
    decreases counters.len(),
{
    if counters.len() == 0 {
        0
    } else {
        total_of(counters.drop_last(), name) + if key_name(counters.last().0) == name {
            counters.last().1 as nat
        } else {
            0
        }
    }
}

/// Whether no key stands twice.
pub open spec fn distinct_keys(counters: Seq<(Seq<char>, u64)>) -> bool {
    forall|i: int, j: int|
        0 <= i < j < counters.len() ==> (#[trigger] counters[i]).0 != (#[trigger] counters[j]).0
}

/// `position_of` returns the first position that holds the key, if there is one.
pub proof fn lemma_position_of(counters: Seq<(Seq<char>, u64)>, key: Seq<char>, from: int)
    requires
        0 <= from,
    ensures
        match position_of(counters, key, from) {
            Some(i) => from <= i < counters.len() && counters[i].0 == key && forall|j: int|
                from <= j < i ==> counters[j].0 != key,
            None => forall|j: int| from <= j < counters.len() ==> counters[j].0 != key,
        },
    decreases counters.len() - from,
{
    if from < counters.len() && counters[from].0 != key {
        lemma_position_of(counters, key, from + 1);
    }
}

/// Counting one event under any key adds one to the number of all events.
pub proof fn lemma_sum_counted(counters: Seq<(Seq<char>, u64)>, key: Seq<char>)
    requires
        sum_counts(counters) < u64::MAX,
    ensures
        sum_counts(counted(counters, key)) == sum_counts(counters) + 1,
{
    lemma_position_of(counters, key, 0);
    match position_of(counters, key, 0) {
        Some(i) => {
            lemma_entry_le_sum(counters, i);
            lemma_sum_update(counters, i, (key, (counters[i].1 + 1) as u64));
        },
        None => {
            assert(counters.push((key, 1u64)).drop_last() =~= counters);
        },
    }
}

/// Each count is among all events.
pub proof fn lemma_entry_le_sum(counters: Seq<(Seq<char>, u64)>, i: int)
    requires
        0 <= i < counters.len(),
    ensures
        counters[i].1 <= sum_counts(counters),
    decreases counters.len(),
{
    if i < counters.len() - 1 {
        lemma_entry_le_sum(counters.drop_last(), i);
    }
}

/// The counts at two different positions are among all events together.
pub proof fn lemma_two_entries_le_sum(counters: Seq<(Seq<char>, u64)>, i: int, j: int)
    requires
        0 <= i < j < counters.len(),
    ensures
        counters[i].1 + counters[j].1 <= sum_counts(counters),
    decreases counters.len(),
{
    if j < counters.len() - 1 {
        lemma_two_entries_le_sum(counters.drop_last(), i, j);
    } else {
        lemma_entry_le_sum(counters.drop_last(), i);
    }
}

/// Replacing one counter changes the number of all events by the difference
/// of the two counts.
pub proof fn lemma_sum_update(counters: Seq<(Seq<char>, u64)>, i: int, entry: (Seq<char>, u64))
    requires
        0 <= i < counters.len(),
    ensures
        sum_counts(counters.update(i, entry)) == sum_counts(counters) - counters[i].1 + entry.1,
    decreases counters.len(),
{
    let updated = counters.update(i, entry);
    if i < counters.len() - 1 {
        lemma_sum_update(counters.drop_last(), i, entry);
        assert(updated.drop_last() =~= counters.drop_last().update(i, entry));
    } else {
        assert(updated.drop_last() =~= counters.drop_last());
    }
}

/// The counts under two different keys are among all events together.
pub proof fn lemma_two_counts_le_sum(
    counters: Seq<(Seq<char>, u64)>,
    first: Seq<char>,
    second: Seq<char>,
)
    requires
        first != second,
    ensures
        count_of(counters, first) + count_of(counters, second) <= sum_counts(counters),
{
    lemma_position_of(counters, first, 0);
    lemma_position_of(counters, second, 0);
    match (position_of(counters, first, 0), position_of(counters, second, 0)) {
        (Some(i), Some(j)) => {
            if i < j {
                lemma_two_entries_le_sum(counters, i, j);
            } else {
                lemma_two_entries_le_sum(counters, j, i);
            }
        },
        (Some(i), None) => {
            lemma_entry_le_sum(counters, i);
        },
        (None, Some(j)) => {
            lemma_entry_le_sum(counters, j);
        },
        (None, None) => {},
    }
}

/// The events of one metric are among all events.
pub proof fn lemma_total_le_sum(counters: Seq<(Seq<char>, u64)>, name: Seq<char>)
    ensures
        total_of(counters, name) <= sum_counts(counters),
    decreases counters.len(),
{
    if counters.len() > 0 {
        lemma_total_le_sum(counters.drop_last(), name);
    }
}

/// Counting keeps the keys distinct.
pub proof fn lemma_counted_distinct(counters: Seq<(Seq<char>, u64)>, key: Seq<char>)
    requires
        distinct_keys(counters),
    ensures
        distinct_keys(counted(counters, key)),
{
    lemma_position_of(counters, key, 0);
}

/// One label of a key in the exposition format: `name="value"`. A label
/// without `=` is shown as the value of a label named `label`.
pub open spec fn prometheus_label(piece: Seq<char>) -> Seq<char> {
    match find_char(piece, '=') {
        Some(eq) => piece.subrange(0, eq) + "=\""@ + piece.subrange(eq + 1, piece.len() as int)
            + "\""@,
        None => "label=\""@ + piece + "\""@,
    }
}

/// The labels of a key from position `from` on in the exposition format:
/// the pieces between the commas, each as a label, with commas between.
pub open spec fn prometheus_labels(labels: Seq<char>, from: int) -> Seq<char>
    decreases labels.len() - from,
{
    match find_char_from(labels, ',', from) {
        Some(comma) => {
            proof {
                if from >= 0 {
                    lemma_find_char_from_is_first(labels, ',', from);
                }
            }
            if comma >= from {
                prometheus_label(labels.subrange(from, comma)) + ","@ + prometheus_labels(
                    labels,
                    comma + 1,
                )
            } else {
                Seq::empty()
            }
        },
        None => prometheus_label(labels.subrange(from, labels.len() as int)),
    }
}

/// The line of one counter in the exposition format.
pub open spec fn metric_line(name: Seq<char>, labels: Seq<char>, value: u64) -> Seq<char> {
    if labels.len() == 0 {
        name + " "@ + decimal(value as nat) + "\n"@
    } else {
        name + "{"@ + prometheus_labels(labels, 0) + "} "@ + decimal(value as nat) + "\n"@
    }
}

/// The two comment lines that open the block of a metric.
pub open spec fn metric_header(name: Seq<char>) -> Seq<char> {
    "# HELP "@ + name + " BYOIDC WASM Plugin metric\n"@ + "# TYPE "@ + name + " counter\n"@
}

/// The lines of the first `upto` counters that belong to the metric `name`.
pub open spec fn metric_lines(counters: Seq<(Seq<char>, u64)>, name: Seq<char>, upto: int) -> Seq<
    char,
>
    decreases upto,
{
    if upto <= 0 {
        Seq::empty()
    } else {
        metric_lines(counters, name, upto - 1) + if counter_name(counters, upto - 1) == name {
            metric_line(name, key_labels(counters[upto - 1].0), counters[upto - 1].1)
        } else {
            Seq::empty()
        }
    }
}

/// The name of the metric that counter `i` belongs to.
pub open spec fn counter_name(counters: Seq<(Seq<char>, u64)>, i: int) -> Seq<char> {
    key_name(counters[i].0)
}

/// Whether counter `i` is the first of its metric.
pub open spec fn opens_metric(counters: Seq<(Seq<char>, u64)>, i: int) -> bool {
    forall|j: int| 0 <= j < i ==> #[trigger] counter_name(counters, j) != counter_name(counters, i)
}

/// The block of the metric that counter `i` belongs to: its header, the
/// lines of all its counters, and an empty line.
pub open spec fn metric_block(counters: Seq<(Seq<char>, u64)>, i: int) -> Seq<char> {
    let name = counter_name(counters, i);
    metric_header(name) + metric_lines(counters, name, counters.len() as int) + "\n"@
}

/// The exposition of the metrics that come up among the first `upto`
/// counters: one block for each metric, in the order in which the metrics
/// first came up.
pub open spec fn exposition(counters: Seq<(Seq<char>, u64)>, upto: int) -> Seq<char>
    decreases upto,
{
    if upto <= 0 {
        Seq::empty()
    } else {
        exposition(counters, upto - 1) + if opens_metric(counters, upto - 1) {
            metric_block(counters, upto - 1)
        } else {
            Seq::empty()
        }
    }
}

/// The metric's name and the labels in a key.
pub fn split_key(key: &str) -> (parts: (&str, &str))
    ensures
        parts.0@ == key_name(key@),
        parts.1@ == key_labels(key@),
{
    let chars = chars_of(key);
    let n: usize = chars.len();
    match find_char_in(&chars, ':', 0) {
        Some(colon) => {
            proof {
                lemma_find_char_from_is_first(key@, ':', 0);
            }
            (key.substring_char(0, colon), key.substring_char(colon + 1, n))
        },
        None => {
            let rest = key.substring_char(n, n);
            (key, rest)
        },
    }
}

fn push_prometheus_label(out: &mut String, piece: &str)
    ensures
        final(out)@ == old(out)@ + prometheus_label(piece@),
{
    let chars = chars_of(piece);
    let n: usize = chars.len();
    match find_char_in(&chars, '=', 0) {
        Some(eq) => {
            proof {
                lemma_find_char_from_is_first(piece@, '=', 0);
            }
            out.append(piece.substring_char(0, eq));
            out.append("=\"");
            out.append(piece.substring_char(eq + 1, n));
            out.append("\"");
        },
        None => {
            out.append("label=\"");
            out.append(piece);
            out.append("\"");
        },
    }
}

fn push_prometheus_labels(out: &mut String, labels: &str)
    ensures
        final(out)@ == old(out)@ + prometheus_labels(labels@, 0),
{
    let chars = chars_of(labels);
    let n: usize = chars.len();
    let mut from: usize = 0;
    loop
        invariant_except_break
            old(out)@ + prometheus_labels(labels@, 0) == out@ + prometheus_labels(
                labels@,
                from as int,
            ),
        invariant
            from <= n,
            n == labels@.len(),
            chars@ == labels@,
        ensures
            out@ == old(out)@ + prometheus_labels(labels@, 0),
        decreases n - from,
    {
        match find_char_in(&chars, ',', from) {
            Some(comma) => {
                proof {
                    lemma_find_char_from_is_first(labels@, ',', from as int);
                }
                push_prometheus_label(out, labels.substring_char(from, comma));
                out.append(",");
                from = comma + 1;
            },
            None => {
                push_prometheus_label(out, labels.substring_char(from, n));
                break ;
            },
        }
    }
}

fn push_metric_line(out: &mut String, name: &str, labels: &str, value: u64)
    ensures
        final(out)@ == old(out)@ + metric_line(name@, labels@, value),
{
    out.append(name);
    if labels.is_empty() {
        out.append(" ");
        push_decimal(out, value);
        out.append("\n");
    } else {
        out.append("{");
        push_prometheus_labels(out, labels);
        out.append("} ");
        push_decimal(out, value);
        out.append("\n");
    }
}

/// Key figures of the gateway's work.
#[derive(Debug, Clone, Copy)]
pub struct MetricsSummary {
    /// Auth requests with any status.
    pub total_requests: u64,
    /// Auth requests that ended with status 202.
    pub successful_requests: u64,
    /// Auth requests that ended with status 401 or 403.
    pub failed_requests: u64,
    /// Failures of the auth service of any type.
    pub service_errors: u64,
    /// Times the configuration was loaded with success.
    pub config_reloads: u64,
}

/// The key of a metric with one label.
pub open spec fn labelled_key(name: Seq<char>, label: Seq<char>, value: Seq<char>) -> Seq<char> {
    metric_key(name, seq![(label, value)])
}

/// Counters in memory, in the order in which their keys first came up.
pub struct MetricsCollector {
    counters: Vec<(String, u64)>,
}

impl View for MetricsCollector {
    type V = Seq<(Seq<char>, u64)>;

    closed spec fn view(&self) -> Seq<(Seq<char>, u64)> {
        self.counters.deep_view()
    }
}

impl MetricsCollector {
    #[verifier::type_invariant]
    spec fn well_formed(&self) -> bool {
        &&& distinct_keys(self.counters.deep_view())
        &&& sum_counts(self.counters.deep_view()) <= u64::MAX
    }

    /// A collector that has counted nothing.
    pub fn new() -> (collector: Self)
        ensures
            collector@ == Seq::<(Seq<char>, u64)>::empty(),
    {
        let counters: Vec<(String, u64)> = Vec::new();
        Self { counters }
    }

    /// The key under which a metric with these labels is counted.
    pub fn build_metric_key(&self, metric_name: &str, labels: &[(&str, &str)]) -> (key: String)
        ensures
            key@ == metric_key(metric_name@, labels.deep_view()),
    {
        broadcast use group_string_axioms;

        let mut key = metric_name.to_string();
        if labels.len() == 0 {
            return key;
        }
        key.append(":");
        let ghost views = labels.deep_view();
        let mut i: usize = 0;
        while i < labels.len()
            invariant
                i <= labels@.len(),
                views == labels.deep_view(),
                key@ == metric_name@ + ":"@ + labels_text(views.take(i as int)),
            decreases labels@.len() - i,
        {
            let (name, value) = labels[i];
            if i > 0 {
                key.append(",");
            }
            key.append(name);
            key.append("=");
            key.append(value);
            assert(views.take(i + 1).drop_last() =~= views.take(i as int));
            i = i + 1;
        }
        assert(views.take(labels@.len() as int) =~= views);
        key
    }

    fn position(&self, key: &String) -> (found: Option<usize>)
        ensures
            match found {
                Some(i) => position_of(self@, key@, 0) == Some(i as int) && i < self@.len(),
                None => position_of(self@, key@, 0) is None,
            },
    {
        let mut i: usize = 0;
        while i < self.counters.len()
            invariant
                i <= self.counters@.len(),
                position_of(self@, key@, 0) == position_of(self@, key@, i as int),
            decreases self.counters@.len() - i,
        {
            if self.counters[i].0 == *key {
                return Some(i);
            }
            i = i + 1;
        }
        None
    }

    /// The number of all events that were counted.
    pub fn recorded(&self) -> (events: u64)
        ensures
            events == sum_counts(self@),
            distinct_keys(self@),
    {
        proof {
            use_type_invariant(self);
        }
        let ghost all = self@;
        let mut events: u64 = 0;
        let mut i: usize = 0;
        while i < self.counters.len()
            invariant
                i <= self.counters@.len(),
                all == self@,
                all == self.counters.deep_view(),
                sum_counts(all) <= u64::MAX,
                events == sum_counts(all.take(i as int)),
            decreases self.counters@.len() - i,
        {
            proof {
                let next = all.take(i + 1);
                assert(next.drop_last() =~= all.take(i as int));
                lemma_sum_take_le(all, i + 1);
            }
            events = events + self.counters[i].1;
            i = i + 1;
        }
        assert(all.take(all.len() as int) =~= all);
        events
    }

    /// Counts one event of the metric under these labels.
    ///
    /// The collector counts up to `u64::MAX` events in all.
    pub fn increment_counter(&mut self, metric_name: &str, labels: &[(&str, &str)])
        requires
            sum_counts(old(self)@) < u64::MAX,
        ensures
            final(self)@ == counted(old(self)@, metric_key(metric_name@, labels.deep_view())),
            sum_counts(final(self)@) == sum_counts(old(self)@) + 1,
            distinct_keys(final(self)@),
    {
        proof {
            use_type_invariant(&*self);
        }
        let key = self.build_metric_key(metric_name, labels);
        let ghost before = self@;
        proof {
            lemma_sum_counted(before, key@);
            lemma_counted_distinct(before, key@);
        }
        let found = self.position(&key);
        let mut counters: Vec<(String, u64)> = Vec::new();
        std::mem::swap(&mut counters, &mut self.counters);
        match found {
            Some(i) => {
                proof {
                    lemma_entry_le_sum(before, i as int);
                }
                let count: u64 = counters[i].1;
                counters.set(i, (key, count + 1));
                assert(counters.deep_view() =~= counted(before, key@));
            },
            None => {
                counters.push((key, 1));
                assert(counters.deep_view() =~= counted(before, key@));
            },
        }
        self.counters = counters;
    }

    /// Counts one auth request that ended with `status`.
    pub fn record_auth_request(&mut self, status: &str)
        requires
            sum_counts(old(self)@) < u64::MAX,
        ensures
            final(self)@ == counted(old(self)@, labelled_key(AUTH_REQUESTS_TOTAL@, "status"@, status@)),
            sum_counts(final(self)@) == sum_counts(old(self)@) + 1,
    {
        let labels = [("status", status)];
        self.increment_counter(AUTH_REQUESTS_TOTAL, &labels);
    }

    /// Counts one failure of the auth service of this type.
    pub fn record_auth_service_error(&mut self, error_type: &str)
        requires
            sum_counts(old(self)@) < u64::MAX,
        ensures
            final(self)@ == counted(
                old(self)@,
                labelled_key(AUTH_SERVICE_ERRORS_TOTAL@, "type"@, error_type@),
            ),
            sum_counts(final(self)@) == sum_counts(old(self)@) + 1,
    {
        let labels = [("type", error_type)];
        self.increment_counter(AUTH_SERVICE_ERRORS_TOTAL, &labels);
    }

    /// Counts one load of the configuration.
    pub fn record_config_reload(&mut self, success: bool)
        requires
            sum_counts(old(self)@) < u64::MAX,
        ensures
            final(self)@ == counted(
                old(self)@,
                labelled_key(
                    CONFIG_RELOAD_TOTAL@,
                    "status"@,
                    if success {
                        "success"@
                    } else {
                        "error"@
                    },
                ),
            ),
            sum_counts(final(self)@) == sum_counts(old(self)@) + 1,
    {
        let status = if success {
            "success"
        } else {
            "error"
        };
        let labels = [("status", status)];
        self.increment_counter(CONFIG_RELOAD_TOTAL, &labels);
    }

    /// The count of the metric under exactly these labels.
    pub fn get_counter(&self, metric_name: &str, labels: &[(&str, &str)]) -> (count: u64)
        ensures
            count == count_of(self@, metric_key(metric_name@, labels.deep_view())),
    {
        let key = self.build_metric_key(metric_name, labels);
        match self.position(&key) {
            Some(i) => {
                self.counters[i].1
            },
            None => 0,
        }
    }

    /// The number of events that were counted for the metric, whatever their labels.
    pub fn total(&self, metric_name: &str) -> (events: u64)
        ensures
            events == total_of(self@, metric_name@),
    {
        proof {
            use_type_invariant(self);
        }
        let ghost all = self@;
        let mut events: u64 = 0;
        let mut i: usize = 0;
        while i < self.counters.len()
            invariant
                i <= self.counters@.len(),
                all == self.counters.deep_view(),
                sum_counts(all) <= u64::MAX,
                events == total_of(all.take(i as int), metric_name@),
            decreases self.counters@.len() - i,
        {
            let (name, _) = split_key(self.counters[i].0.as_str());
            proof {
                let next = all.take(i + 1);
                assert(next.drop_last() =~= all.take(i as int));
                lemma_total_le_sum(next, metric_name@);
                lemma_sum_take_le(all, i + 1);
            }
            if str_eq(name, metric_name) {
                events = events + self.counters[i].1;
            }
            i = i + 1;
        }
        assert(all.take(all.len() as int) =~= all);
        events
    }

    /// The key figures of the gateway's work.
    ///
    /// The totals run over every label of their metric. A request counts as
    /// successful with status 202 and as failed with status 401 or 403.
    pub fn get_summary(&self) -> (summary: MetricsSummary)
        ensures
            summary.total_requests == total_of(self@, AUTH_REQUESTS_TOTAL@),
            summary.successful_requests == count_of(
                self@,
                labelled_key(AUTH_REQUESTS_TOTAL@, "status"@, "202"@),
            ),
            summary.failed_requests == count_of(
                self@,
                labelled_key(AUTH_REQUESTS_TOTAL@, "status"@, "401"@),
            ) + count_of(self@, labelled_key(AUTH_REQUESTS_TOTAL@, "status"@, "403"@)),
            summary.service_errors == total_of(self@, AUTH_SERVICE_ERRORS_TOTAL@),
            summary.config_reloads == count_of(
                self@,
                labelled_key(CONFIG_RELOAD_TOTAL@, "status"@, "success"@),
            ),
    {
        proof {
            use_type_invariant(self);
        }
        let accepted = [("status", "202")];
        let unauthorized = [("status", "401")];
        let forbidden = [("status", "403")];
        let reloaded = [("status", "success")];
        proof {
            let first = labelled_key(AUTH_REQUESTS_TOTAL@, "status"@, "401"@);
            let second = labelled_key(AUTH_REQUESTS_TOTAL@, "status"@, "403"@);
            reveal_strlit("401");
            reveal_strlit("403");
            assert(first.last() == '1');
            lemma_two_counts_le_sum(self@, first, second);
        }
        let failed_unauthorized = self.get_counter(AUTH_REQUESTS_TOTAL, &unauthorized);
        let failed_forbidden = self.get_counter(AUTH_REQUESTS_TOTAL, &forbidden);
        MetricsSummary {
            total_requests: self.total(AUTH_REQUESTS_TOTAL),
            successful_requests: self.get_counter(AUTH_REQUESTS_TOTAL, &accepted),
            failed_requests: failed_unauthorized + failed_forbidden,
            service_errors: self.total(AUTH_SERVICE_ERRORS_TOTAL),
            config_reloads: self.get_counter(CONFIG_RELOAD_TOTAL, &reloaded),
        }
    }

    /// The counters in the text exposition format: for each metric, in the
    /// order in which the metrics first came up, a `HELP` and a `TYPE` line,
    /// one line for each of its counters, and an empty line.
    pub fn export_prometheus_format(&self) -> (text: String)
        ensures
            text@ == exposition(self@, self@.len() as int),
    {
        let ghost all = self@;
        let n: usize = self.counters.len();
        let mut out = String::new();
        let mut i: usize = 0;
        while i < n
            invariant
                i <= n,
                n == self.counters@.len(),
                all == self.counters.deep_view(),
                out@ == exposition(all, i as int),
            decreases n - i,
        {
            let (name, _) = split_key(self.counters[i].0.as_str());
            let mut first = true;
            let mut j: usize = 0;
            while j < i
                invariant
                    j <= i < n,
                    n == self.counters@.len(),
                    all == self.counters.deep_view(),
                    name@ == counter_name(all, i as int),
                    first == (forall|k: int|
                        0 <= k < j ==> #[trigger] counter_name(all, k) != name@),
                decreases i - j,
            {
                let (other, _) = split_key(self.counters[j].0.as_str());
                assert(other@ == counter_name(all, j as int));
                if str_eq(other, name) {
                    first = false;
                }
                j = j + 1;
            }
            if first {
                let ghost before = out@;
                out.append("# HELP ");
                out.append(name);
                out.append(" BYOIDC WASM Plugin metric\n");
                out.append("# TYPE ");
                out.append(name);
                out.append(" counter\n");
                let mut k: usize = 0;
                while k < n
                    invariant
                        k <= n,
                        n == self.counters@.len(),
                        all == self.counters.deep_view(),
                        out@ == before + metric_header(name@) + metric_lines(all, name@, k as int),
                    decreases n - k,
                {
                    let (other, labels) = split_key(self.counters[k].0.as_str());
                    if str_eq(other, name) {
                        push_metric_line(&mut out, name, labels, self.counters[k].1);
                    }
                    k = k + 1;
                }
                out.append("\n");
            }
            i = i + 1;
        }
        out
    }

    /// Forgets every count.
    pub fn reset(&mut self)
        ensures
            final(self)@ == Seq::<(Seq<char>, u64)>::empty(),
    {
        self.counters = Vec::new();
    }
}

/// The events of the first counters are among all events.
pub proof fn lemma_sum_take_le(counters: Seq<(Seq<char>, u64)>, k: int)
    requires
        0 <= k <= counters.len(),
    ensures
        sum_counts(counters.take(k)) <= sum_counts(counters),
    decreases counters.len(),
{
    if k == counters.len() {
        assert(counters.take(k) =~= counters);
    } else {
        lemma_sum_take_le(counters.drop_last(), k);
        assert(counters.drop_last().take(k) =~= counters.take(k));
    }
}

} // verus!
