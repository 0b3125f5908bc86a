//! Reports over batch results: CSV, a text table, and groupings.

use vstd::prelude::*;
use crate::command_result::{
    BatchCommandResults, CommandOutput, CommandResult, CommandStatus, ParseStatus, all_results, keep,
    records_to_json, with_command,
};
use crate::keyed::{KeyedList, assoc_append, assoc_insert, group_by, keys_distinct};
use crate::text::{append_padded, chars_of, decimal, pad_right, push_char, truncate, truncated, can_truncate, usize_to_string};

verus! {

/// The name a status is printed with in CSV.
pub open spec fn status_debug(st: CommandStatus) -> Seq<char> {
    match st {
        CommandStatus::Success => "Success"@,
        CommandStatus::Failed => "Failed"@,
        CommandStatus::Timeout => "Timeout"@,
        CommandStatus::Skipped => "Skipped"@,
    }
}

/// The name a parse status is printed with in CSV.
pub open spec fn parse_status_debug(p: ParseStatus) -> Seq<char> {
    match p {
        ParseStatus::NotAttempted => "NotAttempted"@,
        ParseStatus::Success => "Success"@,
        ParseStatus::Failed => "Failed"@,
        ParseStatus::NoTemplate => "NoTemplate"@,
    }
}

fn status_debug_str(st: CommandStatus) -> (r: &'static str)
    ensures
        r@ == status_debug(st),
{
    match st {
        CommandStatus::Success => "Success",
        CommandStatus::Failed => "Failed",
        CommandStatus::Timeout => "Timeout",
        CommandStatus::Skipped => "Skipped",
    }
}

fn parse_status_debug_str(p: ParseStatus) -> (r: &'static str)
    ensures
        r@ == parse_status_debug(p),
{
    match p {
        ParseStatus::NotAttempted => "NotAttempted",
        ParseStatus::Success => "Success",
        ParseStatus::Failed => "Failed",
        ParseStatus::NoTemplate => "NoTemplate",
    }
}

/// `s` with a backslash put before every comma.
pub open spec fn escape_commas(s: Seq<char>) -> Seq<char>
    decreases s.len(),
{
    if s.len() == 0 {
        Seq::empty()
    } else {
        escape_commas(s.drop_last()) + (if s.last() == ',' { seq!['\\', ','] } else { seq![s.last()] })
    }
}

/// Puts a backslash before every comma of `s`.
pub fn escape_commas_str(s: &str) -> (r: String)
    ensures
        r@ == escape_commas(s@),
{
    let v = chars_of(s);
    let mut r = String::new();
    let mut i: usize = 0;
    while i < v.len()
        invariant
            v@ == s@,
            0 <= i <= v@.len(),
            r@ == escape_commas(v@.take(i as int)),
        decreases v@.len() - i,
    {
        proof { assert(v@.take(i as int + 1).drop_last() =~= v@.take(i as int)); }
        if v[i] == ',' {
            r.append("\\,");
            proof {
                reveal_strlit("\\,");
                assert(r@ =~= escape_commas(v@.take(i as int + 1)));
            }
        } else {
            push_char(&mut r, v[i]);
            proof { assert(r@ =~= escape_commas(v@.take(i as int + 1))); }
        }
        i = i + 1;
    }
    proof { assert(v@.take(v@.len() as int) =~= v@); }
    r
}

/// The CSV line of one result.
pub open spec fn csv_row(r: CommandResult) -> Seq<char> {
    r.device_ip@ + ","@ + r.hostname@ + ","@ + r.platform_type@ + ","@ + escape_commas(r.command@) + ","@
        + status_debug(r.status) + ","@ + parse_status_debug(r.parse_status) + "\n"@
}

/// The CSV lines of results, in order.
pub open spec fn csv_rows(rs: Seq<CommandResult>) -> Seq<char>
    decreases rs.len(),
{
    if rs.len() == 0 { Seq::empty() } else { csv_rows(rs.drop_last()) + csv_row(rs.last()) }
}

/// The CSV header line.
pub open spec fn csv_header() -> Seq<char> {
    "device_ip,hostname,platform_type,command,status,parse_status\n"@
}

proof fn lemma_csv_rows_append(a: Seq<CommandResult>, b: Seq<CommandResult>)
    ensures
        csv_rows(a + b) == csv_rows(a) + csv_rows(b),
    decreases b.len(),
{
    if b.len() == 0 {
        assert(a + b =~= a);
        assert(csv_rows(a) + csv_rows(b) =~= csv_rows(a));
    } else {
        assert((a + b).drop_last() =~= a + b.drop_last());
        lemma_csv_rows_append(a, b.drop_last());
        assert(csv_rows(a) + csv_rows(b) =~= (csv_rows(a) + csv_rows(b.drop_last())) + csv_row(b.last()));
    }
}

/// Appends the CSV line of `r`.
fn append_csv_row(out: &mut String, r: &CommandResult)
    ensures
        final(out)@ == old(out)@ + csv_row(*r),
{
    out.append(r.device_ip.as_str());
    out.append(",");
    out.append(r.hostname.as_str());
    out.append(",");
    out.append(r.platform_type.as_str());
    out.append(",");
    let c = escape_commas_str(r.command.as_str());
    out.append(c.as_str());
    out.append(",");
    out.append(status_debug_str(r.status));
    out.append(",");
    out.append(parse_status_debug_str(r.parse_status));
    out.append("\n");
    proof {
        assert(out@ =~= old(out)@ + csv_row(*r));
    }
}

/// Convert batch results to CSV: a header line, then one line per result,
/// device by device.
pub fn to_csv(results: &BatchCommandResults) -> (csv: String)
    ensures
        csv@ == csv_header() + csv_rows(all_results(results@)),
{
    let mut csv = String::from_str("device_ip,hostname,platform_type,command,status,parse_status\n");
    let n = results.len();
    let mut i: usize = 0;
    proof {
        assert(results@.take(0) =~= Seq::<(Seq<char>, Seq<CommandResult>)>::empty());
        assert(csv@ =~= csv_header() + csv_rows(all_results(results@.take(0))));
    }
    while i < n
        invariant
            n == results@.len(),
            0 <= i <= n,
            csv@ == csv_header() + csv_rows(all_results(results@.take(i as int))),
        decreases n - i,
    {
        let v = results.results_at(i);
        let ghost before = csv@;
        let mut j: usize = 0;
        proof { assert(before =~= before + csv_rows(v@.take(0))); }
        while j < v.len()
            invariant
                v@ == results@[i as int].1,
                0 <= j <= v@.len(),
                csv@ == before + csv_rows(v@.take(j as int)),
            decreases v@.len() - j,
        {
            append_csv_row(&mut csv, &v[j]);
            proof {
                assert(v@.take(j as int + 1).drop_last() =~= v@.take(j as int));
                assert(csv@ =~= before + csv_rows(v@.take(j as int + 1)));
            }
            j = j + 1;
        }
        proof {
            assert(v@.take(v@.len() as int) =~= v@);
            assert(results@.take(i as int + 1).drop_last() =~= results@.take(i as int));
            lemma_csv_rows_append(all_results(results@.take(i as int)), v@);
            assert(csv@ =~= csv_header() + csv_rows(all_results(results@.take(i as int + 1))));
        }
        i = i + 1;
    }
    proof { assert(results@.take(n as int) =~= results@); }
    csv
}

/// The status column of the table.
pub open spec fn status_label(st: CommandStatus) -> Seq<char> {
    match st {
        CommandStatus::Success => "SUCCESS"@,
        CommandStatus::Failed => "FAILED"@,
        CommandStatus::Timeout => "TIMEOUT"@,
        CommandStatus::Skipped => "SKIPPED"@,
    }
}

/// The parse-status column of the table.
pub open spec fn parse_label(p: ParseStatus) -> Seq<char> {
    match p {
        ParseStatus::Success => "PARSED"@,
        ParseStatus::Failed => "PARSE_FAIL"@,
        ParseStatus::NoTemplate => "NO_TEMPLATE"@,
        ParseStatus::NotAttempted => "NOT_PARSED"@,
    }
}

fn status_label_str(st: CommandStatus) -> (r: &'static str)
    ensures
        r@ == status_label(st),
{
    match st {
        CommandStatus::Success => "SUCCESS",
        CommandStatus::Failed => "FAILED",
        CommandStatus::Timeout => "TIMEOUT",
        CommandStatus::Skipped => "SKIPPED",
    }
}

fn parse_label_str(p: ParseStatus) -> (r: &'static str)
    ensures
        r@ == parse_label(p),
{
    match p {
        ParseStatus::Success => "PARSED",
        ParseStatus::Failed => "PARSE_FAIL",
        ParseStatus::NoTemplate => "NO_TEMPLATE",
        ParseStatus::NotAttempted => "NOT_PARSED",
    }
}

/// The error column of the table.
pub open spec fn error_cell(e: Option<String>) -> Seq<char> {
    match e {
        Some(x) => truncated(x@, 16),
        None => Seq::empty(),
    }
}

/// The fields of a result can be shortened to their table columns.
pub open spec fn fits_table(r: CommandResult) -> bool {
    &&& can_truncate(r.device_ip@, 15)
    &&& can_truncate(r.hostname@, 15)
    &&& can_truncate(r.command@, 30)
    &&& (r.error matches Some(x) ==> can_truncate(x@, 16))
}

/// The table line of one result.
pub open spec fn table_row(r: CommandResult) -> Seq<char> {
    "| "@ + pad_right(truncated(r.device_ip@, 15), 15) + " | "@ + pad_right(truncated(r.hostname@, 15), 15) + " | "@
        + pad_right(truncated(r.command@, 30), 30) + " | "@ + pad_right(status_label(r.status), 6) + " | "@
        + pad_right(parse_label(r.parse_status), 11) + " | "@ + pad_right(error_cell(r.error), 16) + " |\n"@
}

/// The table lines of results, in order.
pub open spec fn table_rows(rs: Seq<CommandResult>) -> Seq<char>
    decreases rs.len(),
{
    if rs.len() == 0 { Seq::empty() } else { table_rows(rs.drop_last()) + table_row(rs.last()) }
}

proof fn lemma_table_rows_append(a: Seq<CommandResult>, b: Seq<CommandResult>)
    ensures
        table_rows(a + b) == table_rows(a) + table_rows(b),
    decreases b.len(),
{
    if b.len() == 0 {
        assert(a + b =~= a);
        assert(table_rows(a) + table_rows(b) =~= table_rows(a));
    } else {
        assert((a + b).drop_last() =~= a + b.drop_last());
        lemma_table_rows_append(a, b.drop_last());
        assert(table_rows(a) + table_rows(b) =~= (table_rows(a) + table_rows(b.drop_last())) + table_row(b.last()));
    }
}

/// The border line of the table.
pub open spec fn table_border() -> Seq<char> {
    "+-----------------+-----------------+--------------------------------+--------+-------------+------------------+\n"@
}

/// The heading line of the table.
pub open spec fn table_heading() -> Seq<char> {
    "| Device IP       | Hostname        | Command                        | Status | Parse Status| Error            |\n"@
}

/// The summary line under the table.
pub open spec fn table_summary(b: BatchCommandResults) -> Seq<char> {
    "Summary: "@ + decimal(b.device_count as nat) + " devices, "@ + decimal(b.command_count as nat) + " commands ("@
        + decimal(b.success_count as nat) + " success, "@ + decimal(b.failure_count as nat) + " failed, "@
        + decimal(b.timeout_count as nat) + " timeout, "@ + decimal(b.skipped_count as nat) + " skipped)\n"@
}

/// The first half of a table line: address, host name and command.
pub open spec fn table_row_head(r: CommandResult) -> Seq<char> {
    "| "@ + pad_right(truncated(r.device_ip@, 15), 15) + " | "@ + pad_right(truncated(r.hostname@, 15), 15) + " | "@
        + pad_right(truncated(r.command@, 30), 30)
}

/// The second half of a table line: status, parse status and error.
pub open spec fn table_row_tail(r: CommandResult) -> Seq<char> {
    " | "@ + pad_right(status_label(r.status), 6) + " | "@ + pad_right(parse_label(r.parse_status), 11) + " | "@
        + pad_right(error_cell(r.error), 16) + " |\n"@
}

#[verifier::rlimit(50)]
fn append_row_head(out: &mut String, r: &CommandResult)
    requires
        fits_table(*r),
    ensures
        final(out)@ == old(out)@ + table_row_head(*r),
{
    let ip = truncate(r.device_ip.as_str(), 15);
    let host = truncate(r.hostname.as_str(), 15);
    let cmd = truncate(r.command.as_str(), 30);
    out.append("| ");
    append_padded(out, ip.as_str(), 15);
    out.append(" | ");
    append_padded(out, host.as_str(), 15);
    out.append(" | ");
    append_padded(out, cmd.as_str(), 30);
    proof { assert(out@ =~= old(out)@ + table_row_head(*r)); }
}

fn append_row_tail(out: &mut String, r: &CommandResult)
    requires
        fits_table(*r),
    ensures
        final(out)@ == old(out)@ + table_row_tail(*r),
{
    let err = match &r.error {
        Some(e) => truncate(e.as_str(), 16),
        None => String::new(),
    };
    out.append(" | ");
    append_padded(out, status_label_str(r.status), 6);
    out.append(" | ");
    append_padded(out, parse_label_str(r.parse_status), 11);
    out.append(" | ");
    append_padded(out, err.as_str(), 16);
    out.append(" |\n");
    proof {
        assert(err@ == error_cell(r.error));
        assert(out@ =~= old(out)@ + table_row_tail(*r));
    }
}

fn append_table_row(out: &mut String, r: &CommandResult)
    requires
        fits_table(*r),
    ensures
        final(out)@ == old(out)@ + table_row(*r),
{
    append_row_head(out, r);
    append_row_tail(out, r);
    proof { assert(table_row(*r) =~= table_row_head(*r) + table_row_tail(*r)); }
}

/// Format results as a text table: a heading between borders, one line per
/// result (long fields cut short), a closing border, and a summary line.
#[verifier::rlimit(50)]
pub fn format_as_table(results: &BatchCommandResults) -> (table: String)
    requires
        forall|i: int, q: int| 0 <= i < results@.len() && 0 <= q < results@[i].1.len()
            ==> fits_table(#[trigger] results@[i].1[q]),
    ensures
        table@ == table_border() + table_heading() + table_border() + table_rows(all_results(results@))
            + table_border() + table_summary(*results),
{
    let mut table = String::new();
    table.append("+-----------------+-----------------+--------------------------------+--------+-------------+------------------+\n");
    table.append("| Device IP       | Hostname        | Command                        | Status | Parse Status| Error            |\n");
    table.append("+-----------------+-----------------+--------------------------------+--------+-------------+------------------+\n");
    let ghost head = table@;
    let n = results.len();
    let mut i: usize = 0;
    proof {
        assert(results@.take(0) =~= Seq::<(Seq<char>, Seq<CommandResult>)>::empty());
        assert(table@ =~= head + table_rows(all_results(results@.take(0))));
    }
    while i < n
        invariant
            n == results@.len(),
            0 <= i <= n,
            table@ == head + table_rows(all_results(results@.take(i as int))),
            forall|a: int, q: int| 0 <= a < results@.len() && 0 <= q < results@[a].1.len()
                ==> fits_table(#[trigger] results@[a].1[q]),
        decreases n - i,
    {
        let v = results.results_at(i);
        let ghost before = table@;
        let mut j: usize = 0;
        proof { assert(before =~= before + table_rows(v@.take(0))); }
        while j < v.len()
            invariant
                v@ == results@[i as int].1,
                0 <= j <= v@.len(),
                table@ == before + table_rows(v@.take(j as int)),
                i < n,
                n == results@.len(),
                forall|a: int, q: int| 0 <= a < results@.len() && 0 <= q < results@[a].1.len()
                    ==> fits_table(#[trigger] results@[a].1[q]),
            decreases v@.len() - j,
        {
            assert(fits_table(results@[i as int].1[j as int]));
            append_table_row(&mut table, &v[j]);
            proof {
                assert(v@.take(j as int + 1).drop_last() =~= v@.take(j as int));
                assert(table@ =~= before + table_rows(v@.take(j as int + 1)));
            }
            j = j + 1;
        }
        proof {
            assert(v@.take(v@.len() as int) =~= v@);
            assert(results@.take(i as int + 1).drop_last() =~= results@.take(i as int));
            lemma_table_rows_append(all_results(results@.take(i as int)), v@);
            assert(table@ =~= head + table_rows(all_results(results@.take(i as int + 1))));
        }
        i = i + 1;
    }
    proof { assert(results@.take(n as int) =~= results@); }
    table.append("+-----------------+-----------------+--------------------------------+--------+-------------+------------------+\n");
    table.append("Summary: ");
    table.append(usize_to_string(results.device_count).as_str());
    table.append(" devices, ");
    table.append(usize_to_string(results.command_count).as_str());
    table.append(" commands (");
    table.append(usize_to_string(results.success_count).as_str());
    table.append(" success, ");
    table.append(usize_to_string(results.failure_count).as_str());
    table.append(" failed, ");
    table.append(usize_to_string(results.timeout_count).as_str());
    table.append(" timeout, ");
    table.append(usize_to_string(results.skipped_count).as_str());
    table.append(" skipped)\n");
    proof {
        assert(table@ =~= table_border() + table_heading() + table_border() + table_rows(all_results(results@))
            + table_border() + table_summary(*results));
    }
    table
}

/// References to results, in order.
pub open spec fn refs<'a>(rs: Seq<CommandResult>) -> Seq<&'a CommandResult> {
    rs.map_values(|r: CommandResult| &r)
}

/// The command of a result.
pub open spec fn command_key<'a>() -> spec_fn(&'a CommandResult) -> Seq<char> {
    |r: &'a CommandResult| r.command@
}

/// The device address of a result.
pub open spec fn device_key<'a>() -> spec_fn(&'a CommandResult) -> Seq<char> {
    |r: &'a CommandResult| r.device_ip@
}

/// Groups all results of a batch by `key`, device by device.
fn group_results<'a>(results: &'a BatchCommandResults, by_command: bool) -> (g: KeyedList<Vec<&'a CommandResult>>)
    ensures
        g.wf(),
        g@ == group_by(refs(all_results(results@)), if by_command { command_key() } else { device_key() }),
{
    let ghost key = if by_command { command_key() } else { device_key() };
    let mut g: KeyedList<Vec<&'a CommandResult>> = KeyedList::new();
    let ghost mut seen: Seq<&'a CommandResult> = Seq::empty();
    let n = results.len();
    let mut i: usize = 0;
    proof {
        assert(results@.take(0) =~= Seq::<(Seq<char>, Seq<CommandResult>)>::empty());
        assert(refs(all_results(results@.take(0))) =~= seen);
    }
    while i < n
        invariant
            n == results@.len(),
            0 <= i <= n,
            g.wf(),
            seen == refs(all_results(results@.take(i as int))),
            g@ == group_by(seen, key),
            key == (if by_command { command_key() } else { device_key() }),
        decreases n - i,
    {
        let v = results.results_at(i);
        let ghost start = seen;
        let mut j: usize = 0;
        proof { assert(start =~= start + refs(v@.take(0))); }
        while j < v.len()
            invariant
                v@ == results@[i as int].1,
                0 <= j <= v@.len(),
                g.wf(),
                seen == start + refs(v@.take(j as int)),
                g@ == group_by(seen, key),
                key == (if by_command { command_key() } else { device_key() }),
            decreases v@.len() - j,
        {
            let r: &'a CommandResult = &v[j];
            let k = if by_command { r.command.clone() } else { r.device_ip.clone() };
            proof {
                assert(k@ == key(r));
            }
            g.append_to(k, r);
            proof {
                let next = seen.push(r);
                assert(next.drop_last() =~= seen);
                assert(group_by(next, key) == assoc_append(group_by(seen, key), key(r), r));
                assert(v@.take(j as int + 1) =~= v@.take(j as int).push(v@[j as int]));
                assert(start + refs(v@.take(j as int + 1)) =~= next);
                seen = next;
            }
            j = j + 1;
        }
        proof {
            assert(v@.take(v@.len() as int) =~= v@);
            assert(results@.take(i as int + 1).drop_last() =~= results@.take(i as int));
            assert(refs(all_results(results@.take(i as int + 1))) =~= start + refs(v@));
        }
        i = i + 1;
    }
    proof { assert(results@.take(n as int) =~= results@); }
    g
}

/// Groups results by command, groups in order of first appearance.
pub fn group_by_command(results: &BatchCommandResults) -> (g: KeyedList<Vec<&CommandResult>>)
    ensures
        g.wf(),
        g@ == group_by(refs(all_results(results@)), command_key()),
{
    group_results(results, true)
}

/// Groups results by device address, groups in order of first appearance.
pub fn group_by_device(results: &BatchCommandResults) -> (g: KeyedList<Vec<&CommandResult>>)
    ensures
        g.wf(),
        g@ == group_by(refs(all_results(results@)), device_key()),
{
    group_results(results, false)
}

/// A result that takes part in output comparison: it succeeded and carries output.
pub open spec fn compared(r: CommandResult) -> bool {
    r.status == CommandStatus::Success && r.output is Some
}

/// The raw text of a result's output.
pub open spec fn raw_text(r: CommandResult) -> Seq<char> {
    match r.output {
        Some(CommandOutput::Raw(s)) => s@,
        _ => Seq::empty(),
    }
}

/// Every member of a list after `assoc_append` is `x` or was already at the
/// same place before.
proof fn lemma_assoc_append_member<T>(s: Seq<(Seq<char>, Seq<T>)>, k: Seq<char>, x: T, i: int, j: int)
    requires
        0 <= i < assoc_append(s, k, x).len(),
        0 <= j < assoc_append(s, k, x)[i].1.len(),
    ensures
        assoc_append(s, k, x)[i].1[j] == x
            || (i < s.len() && j < s[i].1.len() && assoc_append(s, k, x)[i].1[j] == s[i].1[j]),
{
    if crate::keyed::has_key(s, k) {
        let ix = crate::keyed::key_index(s, k);
        if i == ix {
            if j < s[ix].1.len() {
                assert(s[ix].1.push(x)[j] == s[ix].1[j]);
            }
        }
    } else {
        if i == s.len() {
            assert(seq![x][j] == x);
        }
    }
}

/// Some result of `rs` for the device at `ip` succeeded with output.
pub open spec fn succeeded_at(rs: Seq<CommandResult>, ip: Seq<char>) -> bool {
    exists|m: int| 0 <= m < rs.len() && (#[trigger] rs[m]).status == CommandStatus::Success
        && rs[m].output is Some && rs[m].device_ip@ == ip
}

/// Only successful runs of a command are compared: every address in every
/// group belongs to a result in `rs` that succeeded with output.
pub proof fn lemma_compared_only_successes(rs: Seq<CommandResult>)
    ensures
        forall|i: int, j: int| 0 <= i < ips_by_output(rs).len() && 0 <= j < ips_by_output(rs)[i].1.len()
            ==> succeeded_at(rs, #[trigger] ips_by_output(rs)[i].1[j]),
    decreases rs.len(),
{
    if rs.len() > 0 {
        let front = rs.drop_last();
        lemma_compared_only_successes(front);
        let g = ips_by_output(rs);
        assert forall|i: int, j: int| 0 <= i < g.len() && 0 <= j < g[i].1.len()
            implies succeeded_at(rs, #[trigger] g[i].1[j]) by {
            if compared(rs.last()) {
                lemma_assoc_append_member(ips_by_output(front), raw_text(rs.last()), rs.last().device_ip@, i, j);
                if g[i].1[j] == rs.last().device_ip@ {
                    assert(rs[rs.len() - 1] == rs.last());
                } else {
                    assert(succeeded_at(front, ips_by_output(front)[i].1[j]));
                    let m = choose|m: int| 0 <= m < front.len() && (#[trigger] front[m]).status == CommandStatus::Success
                        && front[m].output is Some && front[m].device_ip@ == ips_by_output(front)[i].1[j];
                    assert(rs[m] == front[m]);
                }
            } else {
                assert(succeeded_at(front, ips_by_output(front)[i].1[j]));
                let m = choose|m: int| 0 <= m < front.len() && (#[trigger] front[m]).status == CommandStatus::Success
                    && front[m].output is Some && front[m].device_ip@ == ips_by_output(front)[i].1[j];
                assert(rs[m] == front[m]);
            }
        }
    }
}

/// Device addresses grouped by the raw output of their compared results.
pub open spec fn ips_by_output(rs: Seq<CommandResult>) -> Seq<(Seq<char>, Seq<Seq<char>>)>
    decreases rs.len(),
{
    if rs.len() == 0 {
        Seq::empty()
    } else if compared(rs.last()) {
        assoc_append(ips_by_output(rs.drop_last()), raw_text(rs.last()), rs.last().device_ip@)
    } else {
        ips_by_output(rs.drop_last())
    }
}

/// Every compared result has raw output.
pub open spec fn all_raw(rs: Seq<CommandResult>) -> bool {
    forall|i: int| 0 <= i < rs.len() && compared(#[trigger] rs[i]) ==> rs[i].output matches Some(CommandOutput::Raw(_))
}

/// The views of string lists in a keyed list.
pub open spec fn string_groups(s: Seq<(Seq<char>, Seq<String>)>) -> Seq<(Seq<char>, Seq<Seq<char>>)> {
    s.map_values(|e: (Seq<char>, Seq<String>)| (e.0, crate::text::strings_view(e.1)))
}

proof fn lemma_string_groups_append(s: Seq<(Seq<char>, Seq<String>)>, k: Seq<char>, x: String)
    requires
        keys_distinct(s),
    ensures
        string_groups(assoc_append(s, k, x)) == assoc_append(string_groups(s), k, x@),
{
    let t = string_groups(s);
    assert forall|i: int| 0 <= i < s.len() implies #[trigger] t[i].0 == s[i].0 by {}
    if crate::keyed::has_key(s, k) {
        let i = crate::keyed::key_index(s, k);
        crate::keyed::lemma_key_index_unique(s, k, i);
        assert(t[i].0 == k);
        assert(keys_distinct(t)) by {
            assert forall|a: int, b: int| 0 <= a < t.len() && 0 <= b < t.len() && a != b implies t[a].0 != t[b].0 by {
                assert(t[a].0 == s[a].0);
                assert(t[b].0 == s[b].0);
            }
        }
        crate::keyed::lemma_key_index_unique(t, k, i);
        assert(crate::text::strings_view(s[i].1.push(x)) =~= crate::text::strings_view(s[i].1).push(x@));
        assert(string_groups(assoc_append(s, k, x)) =~= assoc_append(t, k, x@));
    } else {
        assert(!crate::keyed::has_key(t, k)) by {
            if crate::keyed::has_key(t, k) {
                let j = choose|j: int| 0 <= j < t.len() && t[j].0 == k;
                assert(s[j].0 == k);
            }
        }
        assert(crate::text::strings_view(seq![x]) =~= seq![x@]);
        assert(string_groups(assoc_append(s, k, x)) =~= assoc_append(t, k, x@));
    }
}

/// Compares the outputs of `command` across devices: the addresses of the
/// devices whose run of it succeeded with output, grouped by that output (raw
/// text, or parsed records printed as JSON), groups in order of first
/// appearance.
pub fn compare_outputs(results: &BatchCommandResults, command: &str) -> (g: KeyedList<Vec<String>>)
    ensures
        g.wf(),
        all_raw(keep(all_results(results@), with_command(command@))) ==> string_groups(g@)
            == ips_by_output(keep(all_results(results@), with_command(command@))),
        forall|i: int, j: int| 0 <= i < g@.len() && 0 <= j < g@[i].1.len()
            ==> succeeded_at(keep(all_results(results@), with_command(command@)), (#[trigger] g@[i].1[j])@),
{
    let list = results.get_command_results(command);
    let ghost items = list@.map_values(|x: &CommandResult| *x);
    let mut g: KeyedList<Vec<String>> = KeyedList::new();
    let mut k: usize = 0;
    proof {
        assert(items.take(0) =~= Seq::<CommandResult>::empty());
        assert(string_groups(g@) =~= Seq::<(Seq<char>, Seq<Seq<char>>)>::empty());
    }
    while k < list.len()
        invariant
            0 <= k <= list@.len(),
            items == list@.map_values(|x: &CommandResult| *x),
            g.wf(),
            all_raw(items.take(k as int)) ==> string_groups(g@) == ips_by_output(items.take(k as int)),
            forall|i: int, j: int| 0 <= i < g@.len() && 0 <= j < g@[i].1.len()
                ==> succeeded_at(items, (#[trigger] g@[i].1[j])@),
        decreases list@.len() - k,
    {
        let r = list[k];
        proof {
            assert(items.take(k as int + 1).drop_last() =~= items.take(k as int));
            assert(items.take(k as int + 1).last() == *r);
            if all_raw(items.take(k as int + 1)) {
                assert forall|i: int| 0 <= i < items.take(k as int).len() && compared(#[trigger] items.take(k as int)[i])
                    implies items.take(k as int)[i].output matches Some(CommandOutput::Raw(_)) by {
                    assert(items.take(k as int)[i] == items.take(k as int + 1)[i]);
                }
            }
        }
        if r.status == CommandStatus::Success {
            match &r.output {
                Some(o) => {
                    let text = match o {
                        CommandOutput::Raw(s) => s.clone(),
                        CommandOutput::Parsed(d) => match records_to_json(d) {
                            Ok(j) => j,
                            Err(_) => String::from_str("Parse error"),
                        },
                    };
                    let ghost before = g@;
                    proof { g.lemma_wf(); }
                    let ip = r.device_ip.clone();
                    proof {
                        if all_raw(items.take(k as int + 1)) {
                            assert(compared(items.take(k as int + 1)[k as int]));
                            assert(text@ == raw_text(*r));
                        }
                    }
                    let ghost ipv = ip;
                    let ghost key = text@;
                    g.append_to(text, ip);
                    proof {
                        lemma_string_groups_append(before, key, ipv);
                        assert(items[k as int] == *r);
                        assert forall|i: int, j: int| 0 <= i < g@.len() && 0 <= j < g@[i].1.len()
                            implies succeeded_at(items, (#[trigger] g@[i].1[j])@) by {
                            lemma_assoc_append_member(before, key, ipv, i, j);
                            if g@[i].1[j] != ipv {
                                assert(succeeded_at(items, before[i].1[j]@));
                            }
                        }
                    }
                },
                None => {},
            }
        }
        k = k + 1;
    }
    proof { assert(items.take(list@.len() as int) =~= items); }
    g
}

} // verus!
