use vstd::prelude::*;

use crate::collector::ports_of;
use crate::digits::{
    dec_str, int_str, lemma_dec_str_digits, lemma_dec_str_injective, lemma_dec_value_dec_str,
    is_digit, u64_to_string, i64_to_string,
};
use crate::outcome::ProbeOutcome;
use crate::timestamp::{format_timestamp, spec_timestamp_str, Timestamp};
use crate::tokens::{
    extract_port_number, is_space, lemma_skip_tok_exact, lemma_skip_ws_exact, spec_extract_port,
    spec_second_token,
};

verus! {

/// The line reporting one open port: the port in decimal and the instant the
/// probe completed.
pub open spec fn spec_open_line(port: u16, ts: Timestamp) -> Seq<char> {
    "Port "@ + dec_str(port as nat) + " is open - Scanned at "@ + spec_timestamp_str(ts)
}

/// The line reporting one open-port outcome.
pub open spec fn spec_open_line_of(o: ProbeOutcome) -> Seq<char>
    recommends
        o is Open,
{
    spec_open_line(o.spec_port(), o->stamp)
}

/// The closing line of a run: how long the scan took, in whole seconds.
pub open spec fn spec_summary_line(secs: int) -> Seq<char> {
    "Scanning completed in "@ + int_str(secs) + " seconds"@
}

/// The lines that mark the start of a run in the log: two blank lines, then
/// the banner.
pub open spec fn spec_marker_lines() -> Seq<Seq<char>> {
    seq![""@, ""@, "Here is the scan result"@]
}

/// The human-readable lines for a sequence of open-port outcomes, in
/// completion order.
pub open spec fn spec_report_lines(rs: Seq<ProbeOutcome>) -> Seq<Seq<char>> {
    rs.map_values(|o: ProbeOutcome| spec_open_line_of(o))
}

/// The bare port numbers persisted for a sequence of open-port outcomes, one
/// line each, in completion order.
pub open spec fn spec_port_lines(rs: Seq<ProbeOutcome>) -> Seq<Seq<char>> {
    rs.map_values(|o: ProbeOutcome| dec_str(o.spec_port() as nat))
}

/// Everything one run appends to the log: the start marker, one line per
/// open port, and the summary.
pub open spec fn spec_run_log_lines(rs: Seq<ProbeOutcome>, secs: int) -> Seq<Seq<char>> {
    spec_marker_lines() + spec_report_lines(rs) + seq![spec_summary_line(secs)]
}

/// The character sequences of a sequence of strings.
pub open spec fn view_lines(v: Seq<String>) -> Seq<Seq<char>> {
    v.map_values(|s: String| s@)
}

/// Renders the line reporting one open port.
pub fn format_open_line(port: u16, ts: &Timestamp) -> (r: String)
    ensures
        r@ == spec_open_line(port, *ts),
{
    let mut r = String::from_str("Port ");
    r.append(u64_to_string(port as u64).as_str());
    r.append(" is open - Scanned at ");
    r.append(format_timestamp(ts).as_str());
    proof {
        assert(r@ =~= spec_open_line(port, *ts));
    }
    r
}

/// Renders the closing summary line of a run.
pub fn format_summary_line(secs: i64) -> (r: String)
    ensures
        r@ == spec_summary_line(secs as int),
{
    let mut r = String::from_str("Scanning completed in ");
    r.append(i64_to_string(secs).as_str());
    r.append(" seconds");
    proof {
        assert(r@ =~= spec_summary_line(secs as int));
    }
    r
}

/// The lines that mark the start of a run in the log.
pub fn marker_lines() -> (r: Vec<String>)
    ensures
        view_lines(r@) == spec_marker_lines(),
{
    let mut r: Vec<String> = Vec::new();
    r.push(String::from_str(""));
    r.push(String::from_str(""));
    r.push(String::from_str("Here is the scan result"));
    proof {
        assert(view_lines(r@) =~= spec_marker_lines());
    }
    r
}

/// Renders the human-readable report: one line per retained open-port
/// outcome, in completion order.
pub fn report_lines(results: &Vec<ProbeOutcome>) -> (r: Vec<String>)
    requires
        forall|i: int| 0 <= i < results@.len() ==> #[trigger] results@[i] is Open,
    ensures
        view_lines(r@) == spec_report_lines(results@),
{
    let mut r: Vec<String> = Vec::new();
    let mut idx: usize = 0;
    while idx < results.len()
        invariant
            idx <= results@.len(),
            forall|i: int| 0 <= i < results@.len() ==> #[trigger] results@[i] is Open,
            r@.len() == idx,
            forall|i: int| 0 <= i < idx ==> #[trigger] r@[i]@ == spec_open_line_of(results@[i]),
        decreases results@.len() - idx,
    {
        let o = &results[idx];
        let line = format_open_line(o.port(), &o.stamp());
        r.push(line);
        idx = idx + 1;
    }
    proof {
        assert(view_lines(r@) =~= spec_report_lines(results@));
    }
    r
}

/// A report line names its own port: reading the port number back out of the
/// line yields exactly the port the line was rendered for.
pub proof fn lemma_line_names_its_port(port: u16, ts: Timestamp)
    ensures
        spec_extract_port(spec_open_line(port, ts)) == Some(port),
{
    reveal_strlit("Port ");
    reveal_strlit(" is open - Scanned at ");
    let a = "Port "@;
    let d = dec_str(port as nat);
    let c = " is open - Scanned at "@ + spec_timestamp_str(ts);
    let s = spec_open_line(port, ts);
    lemma_dec_str_digits(port as nat);
    assert(s =~= a + d + c);
    let dlen = d.len() as int;
    assert(forall|k: int| 0 <= k < 5 ==> (a + d + c)[k] == a[k]);
    assert(forall|k: int| 5 <= k < 5 + dlen ==> (a + d + c)[k] == d[k - 5]);
    assert(s[5 + dlen] == c[0]);
    assert(c[0] == ' ');
    assert(forall|k: int| 0 <= k < 4 ==> !is_space(#[trigger] s[k]));
    assert(is_space(s[4]));
    assert(forall|k: int| 5 <= k < 5 + dlen ==> is_digit(#[trigger] s[k]));
    assert(forall|k: int| 5 <= k < 5 + dlen ==> !is_space(#[trigger] s[k]));
    lemma_skip_ws_exact(s, 0, 0);
    lemma_skip_tok_exact(s, 0, 4);
    lemma_skip_ws_exact(s, 4, 5);
    lemma_skip_tok_exact(s, 5, 5 + dlen);
    assert(spec_second_token(s) == Some(s.subrange(5, 5 + dlen)));
    assert(s.subrange(5, 5 + dlen) =~= d);
    lemma_dec_value_dec_str(port as nat);
}

/// Renders the bare port numbers to persist, one per retained open-port
/// outcome, in completion order, by reading each port back out of its own
/// report line as the reporter persists it.
pub fn port_lines(results: &Vec<ProbeOutcome>) -> (r: Vec<String>)
    requires
        forall|i: int| 0 <= i < results@.len() ==> #[trigger] results@[i] is Open,
    ensures
        view_lines(r@) == spec_port_lines(results@),
{
    let mut r: Vec<String> = Vec::new();
    let mut idx: usize = 0;
    while idx < results.len()
        invariant
            idx <= results@.len(),
            forall|i: int| 0 <= i < results@.len() ==> #[trigger] results@[i] is Open,
            r@.len() == idx,
            forall|i: int|
                0 <= i < idx ==> #[trigger] r@[i]@ == dec_str(results@[i].spec_port() as nat),
        decreases results@.len() - idx,
    {
        let o = &results[idx];
        let line = format_open_line(o.port(), &o.stamp());
        proof {
            lemma_line_names_its_port(o.spec_port(), o->stamp);
        }
        match extract_port_number(line.as_str()) {
            Some(p) => {
                r.push(u64_to_string(p as u64));
            },
            None => {
                proof {
                    assert(false);
                }
            },
        }
        idx = idx + 1;
    }
    proof {
        assert(view_lines(r@) =~= spec_port_lines(results@));
    }
    r
}

/// Distributing views over concatenation of string sequences.
proof fn lemma_view_lines_add(a: Seq<String>, b: Seq<String>)
    ensures
        view_lines(a + b) =~= view_lines(a) + view_lines(b),
{
}

/// Appends a copy of every line of `src` to `dst`, in order.
fn extend_lines(dst: &mut Vec<String>, src: &Vec<String>)
    ensures
        final(dst)@ == old(dst)@ + src@,
{
    let mut idx: usize = 0;
    while idx < src.len()
        invariant
            idx <= src@.len(),
            dst@ == old(dst)@ + src@.subrange(0, idx as int),
        decreases src@.len() - idx,
    {
        dst.push(src[idx].clone());
        idx = idx + 1;
        proof {
            assert(dst@ =~= old(dst)@ + src@.subrange(0, idx as int));
        }
    }
    proof {
        assert(src@.subrange(0, src@.len() as int) =~= src@);
    }
}

/// Renders everything one run appends to the log file: the start marker, one
/// line per open port, and the closing summary.
pub fn run_log_lines(results: &Vec<ProbeOutcome>, secs: i64) -> (r: Vec<String>)
    requires
        forall|i: int| 0 <= i < results@.len() ==> #[trigger] results@[i] is Open,
    ensures
        view_lines(r@) == spec_run_log_lines(results@, secs as int),
{
    let mut r = marker_lines();
    let body = report_lines(results);
    let ghost marker = r@;
    extend_lines(&mut r, &body);
    let ghost with_body = r@;
    r.push(format_summary_line(secs));
    proof {
        lemma_view_lines_add(marker, body@);
        assert(view_lines(r@) =~= view_lines(with_body).push(r@.last()@));
        assert(view_lines(r@) =~= spec_run_log_lines(results@, secs as int));
    }
    r
}

/// Appending a second run's records never disturbs an earlier run's: after
/// both runs, the file still begins with exactly what it held after the
/// first.
pub proof fn lemma_second_run_preserves_first(
    prior: Seq<Seq<char>>,
    run1: Seq<Seq<char>>,
    run2: Seq<Seq<char>>,
)
    ensures
        ((prior + run1) + run2).subrange(0, (prior + run1).len() as int) == prior + run1,
        forall|i: int|
            0 <= i < run1.len() ==> ((prior + run1) + run2)[prior.len() + i] == #[trigger] run1[i],
{
    assert(((prior + run1) + run2).subrange(0, (prior + run1).len() as int) =~= prior + run1);
}

/// A port that was recorded is persisted: its decimal line stands among the
/// persisted port lines.
pub proof fn lemma_kept_port_is_persisted(rs: Seq<ProbeOutcome>, p: u16)
    requires
        ports_of(rs).contains(p),
    ensures
        spec_port_lines(rs).contains(dec_str(p as nat)),
{
    let i = choose|i: int| 0 <= i < ports_of(rs).len() && ports_of(rs)[i] == p;
    assert(spec_port_lines(rs)[i] == dec_str(p as nat));
}

/// A port no retained outcome speaks of is absent from the persisted port
/// lines: a probe that resolved only after the wait window, and so was never
/// recorded, leaves no port line behind.
pub proof fn lemma_unrecorded_port_absent(rs: Seq<ProbeOutcome>, p: u16)
    requires
        !ports_of(rs).contains(p),
    ensures
        !spec_port_lines(rs).contains(dec_str(p as nat)),
{
    if spec_port_lines(rs).contains(dec_str(p as nat)) {
        let i = choose|i: int|
            0 <= i < spec_port_lines(rs).len() && spec_port_lines(rs)[i] == dec_str(p as nat);
        lemma_dec_str_injective(rs[i].spec_port() as nat, p as nat);
        assert(ports_of(rs)[i] == p);
        assert(ports_of(rs).contains(p));
    }
}

} // verus!
