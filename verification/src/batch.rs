//! Jobs run from the rows of a CSV file: each row's id and the instruction
//! its agent is given.
use vstd::prelude::*;

use crate::text::{chars_eq, chars_to_string, dec_spec, push_chars, push_dec, push_str, str_chars, trim_chars, trim_spec};

verus! {

/// Every occurrence of `p` in `s` replaced by `r`, left to right, none
/// overlapping (`str::replace` with a pattern that is not empty).
pub open spec fn replace_all(s: Seq<char>, p: Seq<char>, r: Seq<char>) -> Seq<char>
    decreases s.len(),
{
    if p.len() == 0 || s.len() < p.len() {
        s
    } else if s.take(p.len() as int) == p {
        r + replace_all(s.skip(p.len() as int), p, r)
    } else {
        seq![s[0]] + replace_all(s.skip(1), p, r)
    }
}

fn at(s: &Vec<char>, i: usize, p: &Vec<char>) -> (b: bool)
    requires
        i + p@.len() <= s@.len(),
    ensures
        b == (s@.skip(i as int).take(p@.len() as int) == p@),
{
    let slen = s.len();
    let mut k: usize = 0;
    while k < p.len()
        invariant
            k <= p@.len(),
            slen == s@.len(),
            i + p@.len() <= s@.len(),
            forall|j: int| 0 <= j < k ==> s@[i + j] == p@[j],
        decreases p@.len() - k,
    {
        if s[i + k] != p[k] {
            assert(s@.skip(i as int).take(p@.len() as int)[k as int] != p@[k as int]);
            return false;
        }
        k += 1;
    }
    assert(s@.skip(i as int).take(p@.len() as int) =~= p@);
    true
}

pub fn replace_all_chars(s: &Vec<char>, p: &Vec<char>, r: &Vec<char>) -> (out: Vec<char>)
    requires
        p@.len() > 0,
    ensures
        out@ == replace_all(s@, p@, r@),
{
    let mut out: Vec<char> = Vec::new();
    let mut i: usize = 0;
    let n = s.len();
    let m = p.len();
    assert(s@.skip(0) =~= s@);
    assert(out@ + replace_all(s@, p@, r@) =~= replace_all(s@, p@, r@));
    while i < n
        invariant
            i <= n,
            n == s@.len(),
            m == p@.len(),
            m > 0,
            out@ + replace_all(s@.skip(i as int), p@, r@) == replace_all(s@, p@, r@),
        decreases n - i,
    {
        let ghost rest = s@.skip(i as int);
        if n - i >= m && at(s, i, p) {
            assert(rest.take(m as int) == p@);
            assert(rest.skip(m as int) =~= s@.skip(i + m));
            push_chars(&mut out, r);
            i += m;
        } else {
            assert(rest.skip(1) =~= s@.skip(i + 1));
            if n - i >= m {
                assert(rest.take(m as int) != p@);
            }
            out.push(s[i]);
            proof {
                assert(seq![s@[i as int]] == seq![rest[0]]);
            }
            i += 1;
        }
    }
    assert(s@.skip(n as int) =~= Seq::<char>::empty());
    assert(out@ + Seq::<char>::empty() =~= out@);
    out
}

pub open spec fn strs(v: Seq<String>) -> Seq<Seq<char>> {
    v.map_values(|s: String| s@)
}

/// The value of column `i` in a record: empty past its end.
pub open spec fn field(record: Seq<Seq<char>>, i: int) -> Seq<char> {
    if 0 <= i < record.len() {
        record[i]
    } else {
        Seq::empty()
    }
}

/// The template with each `{header}` replaced by the row's value of that
/// column, header by header.
pub open spec fn interpolate_spec(t: Seq<char>, headers: Seq<Seq<char>>, record: Seq<Seq<char>>, n: nat) -> Seq<char>
    decreases n,
{
    if n == 0 {
        t
    } else {
        let k = (n - 1) as int;
        replace_all(interpolate_spec(t, headers, record, (n - 1) as nat), seq!['{'] + headers[k] + seq!['}'], field(record, k))
    }
}

pub fn interpolate_batch_instruction(template: &str, headers: &Vec<String>, record: &Vec<String>) -> (r: String)
    ensures
        r@ == interpolate_spec(template@, strs(headers@), strs(record@), headers@.len()),
{
    let mut out = str_chars(template);
    let mut i: usize = 0;
    while i < headers.len()
        invariant
            i <= headers@.len(),
            out@ == interpolate_spec(template@, strs(headers@), strs(record@), i as nat),
        decreases headers@.len() - i,
    {
        let mut p: Vec<char> = Vec::new();
        p.push('{');
        push_str(&mut p, headers[i].as_str());
        p.push('}');
        assert(p@ =~= seq!['{'] + strs(headers@)[i as int] + seq!['}']);
        let value: Vec<char> = if i < record.len() {
            str_chars(record[i].as_str())
        } else {
            Vec::new()
        };
        assert(value@ == field(strs(record@), i as int));
        out = replace_all_chars(&out, &p, &value);
        i += 1;
    }
    chars_to_string(&out)
}

/// The first column with this header.
pub open spec fn first_index(headers: Seq<Seq<char>>, name: Seq<char>) -> Option<int>
    decreases headers.len(),
{
    if headers.len() == 0 {
        None
    } else {
        match first_index(headers.drop_last(), name) {
            Some(i) => Some(i),
            None => if headers.last() == name {
                Some(headers.len() - 1)
            } else {
                None
            },
        }
    }
}

/// A row's id: the value of the id column, trimmed, when there is one
/// and it is not blank; else `row-{n}` for the one-based row number.
pub open spec fn item_id_spec(headers: Seq<Seq<char>>, record: Seq<Seq<char>>, row_index: usize, id_column: Option<Seq<char>>) -> Seq<char> {
    let fallback = "row-"@ + dec_spec(
        if row_index == usize::MAX {
            usize::MAX as nat
        } else {
            (row_index + 1) as nat
        },
    );
    match id_column {
        Some(c) => match first_index(headers, c) {
            Some(i) => if i < record.len() && trim_spec(record[i]).len() > 0 {
                trim_spec(record[i])
            } else {
                fallback
            },
            None => fallback,
        },
        None => fallback,
    }
}

pub fn batch_item_id_from_record(headers: &Vec<String>, record: &Vec<String>, row_index: usize, id_column: Option<&str>) -> (r:
    String)
    ensures
        r@ == item_id_spec(strs(headers@), strs(record@), row_index, crate::command::opt_str_view(id_column)),
{
    let ghost hv = strs(headers@);
    match id_column {
        Some(c) => {
            let cv = str_chars(c);
            let mut i: usize = 0;
            let mut pos: Option<usize> = None;
            while i < headers.len()
                invariant
                    i <= headers@.len(),
                    hv == strs(headers@),
                    cv@ == c@,
                    first_index(hv.take(i as int), c@) == match pos {
                        Some(p) => Some(p as int),
                        None => None::<int>,
                    },
                    pos is Some ==> pos->0 < i,
                decreases headers@.len() - i,
            {
                proof {
                    assert(hv.take(i + 1).drop_last() =~= hv.take(i as int));
                }
                if pos.is_none() && chars_eq(&str_chars(headers[i].as_str()), &cv) {
                    pos = Some(i);
                }
                i += 1;
            }
            assert(hv.take(headers@.len() as int) =~= hv);
            match pos {
                Some(p) => {
                    if p < record.len() {
                        let v = trim_chars(&str_chars(record[p].as_str()));
                        if v.len() > 0 {
                            return chars_to_string(&v);
                        }
                    }
                },
                None => {},
            }
        },
        None => {},
    }
    let mut out = str_chars("row-");
    push_dec(&mut out, row_index.saturating_add(1) as u64);
    chars_to_string(&out)
}


// ---------------------------------------------------------------------------
// Reading the file and running the batch
// ---------------------------------------------------------------------------

/// The table the `csv` crate reads from these bytes with its default
/// settings (a header row, then records of the same width): the headers,
/// then the records or the first error in them; or the error reading the
/// headers. Errors are their messages.
pub uninterp spec fn csv_table(bytes: Seq<u8>) -> Result<
    (Seq<Seq<char>>, Result<Seq<Seq<Seq<char>>>, Seq<char>>),
    Seq<char>,
>;

pub open spec fn rows_view(v: Seq<Vec<String>>) -> Seq<Seq<Seq<char>>> {
    v.map_values(|r: Vec<String>| strs(r@))
}

pub open spec fn table_view(r: Result<(Vec<String>, Result<Vec<Vec<String>>, String>), String>) -> Result<
    (Seq<Seq<char>>, Result<Seq<Seq<Seq<char>>>, Seq<char>>),
    Seq<char>,
> {
    match r {
        Err(e) => Err(e@),
        Ok((h, Err(e))) => Ok((strs(h@), Err(e@))),
        Ok((h, Ok(rows))) => Ok((strs(h@), Ok(rows_view(rows@)))),
    }
}

/// `csv::Reader::from_reader` on the bytes, then `headers` and `records`,
/// each field as text: the table is `csv_table` of the bytes.
#[verifier::external_body]
fn csv_read_records(bytes: &[u8]) -> (r: Result<(Vec<String>, Result<Vec<Vec<String>>, String>), String>)
    ensures
        table_view(r) == csv_table(bytes@),
{
    let mut reader = csv::Reader::from_reader(bytes);
    let headers: Vec<String> = match reader.headers() {
        Ok(h) => h.iter().map(str::to_string).collect(),
        Err(e) => return Err(e.to_string()),
    };
    let rows = reader
        .records()
        .map(|rec| rec.map(|r| r.iter().map(str::to_string).collect()).map_err(|e| e.to_string()))
        .collect::<Result<Vec<Vec<String>>, String>>();
    Ok((headers, rows))
}

/// Why a batch is refused.
#[derive(Debug, Clone, PartialEq, Eq)]
pub enum BatchError {
    BlankInstruction,
    Headers(String),
    NoHeaders,
    Row(String),
}

impl BatchError {
    /// The refusal as the model is told it.
    pub fn message(&self) -> (r: String)
        ensures
            *self == BatchError::BlankInstruction ==> r@ == "instruction 不能为空"@,
            *self == BatchError::NoHeaders ==> r@ == "CSV 缺少表头"@,
            self matches BatchError::Headers(e) ==> r@ == "读取 CSV 表头失败: "@ + e@,
            self matches BatchError::Row(e) ==> r@ == "读取 CSV 行失败: "@ + e@,
    {
        match self {
            BatchError::BlankInstruction => chars_to_string(&str_chars("instruction 不能为空")),
            BatchError::NoHeaders => chars_to_string(&str_chars("CSV 缺少表头")),
            BatchError::Headers(e) => {
                let mut out = str_chars("读取 CSV 表头失败: ");
                push_str(&mut out, e.as_str());
                chars_to_string(&out)
            },
            BatchError::Row(e) => {
                let mut out = str_chars("读取 CSV 行失败: ");
                push_str(&mut out, e.as_str());
                chars_to_string(&out)
            },
        }
    }
}

/// One item of a batch: its id and the instruction its agent gets.
#[derive(Debug, Clone, PartialEq, Eq)]
pub struct BatchItem {
    pub item_id: String,
    pub instruction: String,
}

pub open spec fn batch_items_spec(instruction: Seq<char>, headers: Seq<Seq<char>>, rows: Seq<Seq<Seq<char>>>, id_column: Option<
    Seq<char>,
>) -> Seq<(Seq<char>, Seq<char>)> {
    Seq::new(
        rows.len(),
        |k: int| (item_id_spec(headers, rows[k], k as usize, id_column), interpolate_spec(instruction, headers, rows[k], headers.len())),
    )
}

pub open spec fn items_view(v: Seq<BatchItem>) -> Seq<(Seq<char>, Seq<char>)> {
    v.map_values(|it: BatchItem| (it.item_id@, it.instruction@))
}

/// The first check of a batch, before its file is opened: the instruction
/// must not be blank.
pub fn check_batch_instruction(instruction: &str) -> (r: Result<(), BatchError>)
    ensures
        trim_spec(instruction@).len() == 0 <==> r == Err::<(), BatchError>(BatchError::BlankInstruction),
        trim_spec(instruction@).len() > 0 <==> r is Ok,
{
    if trim_chars(&str_chars(instruction)).len() == 0 {
        Err(BatchError::BlankInstruction)
    } else {
        Ok(())
    }
}

/// The items of a batch from a table already read: refused when the
/// instruction is blank or there are no headers; else one item per record,
/// in order, with its id and its instruction filled from the record.
pub fn plan_csv_batch(instruction: &str, headers: &Vec<String>, records: &Vec<Vec<String>>, id_column: Option<&str>) -> (r:
    Result<Vec<BatchItem>, BatchError>)
    ensures
        trim_spec(instruction@).len() == 0 ==> r == Err::<Vec<BatchItem>, BatchError>(BatchError::BlankInstruction),
        trim_spec(instruction@).len() > 0 && headers@.len() == 0 ==> r == Err::<Vec<BatchItem>, BatchError>(
            BatchError::NoHeaders,
        ),
        trim_spec(instruction@).len() > 0 && headers@.len() > 0 ==> (r matches Ok(items) && items_view(items@)
            == batch_items_spec(instruction@, strs(headers@), rows_view(records@), crate::command::opt_str_view(id_column))),
{
    if trim_chars(&str_chars(instruction)).len() == 0 {
        return Err(BatchError::BlankInstruction);
    }
    if headers.len() == 0 {
        return Err(BatchError::NoHeaders);
    }
    let ghost want = batch_items_spec(instruction@, strs(headers@), rows_view(records@), crate::command::opt_str_view(id_column));
    let mut items: Vec<BatchItem> = Vec::new();
    let mut k: usize = 0;
    while k < records.len()
        invariant
            k <= records@.len(),
            want == batch_items_spec(instruction@, strs(headers@), rows_view(records@), crate::command::opt_str_view(id_column)),
            items_view(items@) == want.take(k as int),
        decreases records@.len() - k,
    {
        let item_id = batch_item_id_from_record(headers, &records[k], k, id_column);
        let text = interpolate_batch_instruction(instruction, headers, &records[k]);
        assert(rows_view(records@)[k as int] == strs(records@[k as int]@));
        let ghost pair = (item_id@, text@);
        assert(pair == want[k as int]);
        let ghost before = items_view(items@);
        items.push(BatchItem { item_id, instruction: text });
        assert(items_view(items@) =~= before.push(pair));
        assert(items_view(items@) =~= want.take(k + 1));
        k += 1;
    }
    assert(want.take(records@.len() as int) =~= want);
    Ok(items)
}

/// The items of a batch read from the bytes of a CSV file: refused when the
/// instruction is blank (before anything is read), when the headers cannot
/// be read or there are none, or at the first record that cannot be read;
/// else the items of `plan_csv_batch`.
pub fn read_csv_batch(instruction: &str, bytes: &[u8], id_column: Option<&str>) -> (r: Result<Vec<BatchItem>, BatchError>)
    ensures
        trim_spec(instruction@).len() == 0 ==> r == Err::<Vec<BatchItem>, BatchError>(BatchError::BlankInstruction),
        trim_spec(instruction@).len() > 0 ==> match csv_table(bytes@) {
            Err(e) => r matches Err(BatchError::Headers(x)) && x@ == e,
            Ok((h, rows)) => if h.len() == 0 {
                r == Err::<Vec<BatchItem>, BatchError>(BatchError::NoHeaders)
            } else {
                match rows {
                    Err(e) => r matches Err(BatchError::Row(x)) && x@ == e,
                    Ok(rs) => r matches Ok(items) && items_view(items@) == batch_items_spec(
                        instruction@,
                        h,
                        rs,
                        crate::command::opt_str_view(id_column),
                    ),
                }
            },
        },
{
    if trim_chars(&str_chars(instruction)).len() == 0 {
        return Err(BatchError::BlankInstruction);
    }
    match csv_read_records(bytes) {
        Err(e) => Err(BatchError::Headers(e)),
        Ok((headers, rows)) => {
            if headers.len() == 0 {
                return Err(BatchError::NoHeaders);
            }
            match rows {
                Err(e) => Err(BatchError::Row(e)),
                Ok(records) => plan_csv_batch(instruction, &headers, &records, id_column),
            }
        },
    }
}

/// Agents a batch may run at once when none is given.
pub const DEFAULT_AGENT_BATCH_CONCURRENCY: usize = 16;

/// The most agents a batch may run at once.
pub const MAX_AGENT_BATCH_CONCURRENCY: usize = 64;

/// How many agents a batch runs at once: the workers asked for, else the
/// concurrency asked for, else the default; kept between one and the most.
pub fn batch_concurrency(max_workers: Option<usize>, max_concurrency: Option<usize>) -> (r: usize)
    ensures
        r == ({
            let asked: int = match max_workers {
                Some(w) => w as int,
                None => match max_concurrency {
                    Some(c) => c as int,
                    None => DEFAULT_AGENT_BATCH_CONCURRENCY as int,
                },
            };
            if asked < 1 {
                1
            } else if asked > MAX_AGENT_BATCH_CONCURRENCY {
                MAX_AGENT_BATCH_CONCURRENCY as int
            } else {
                asked
            }
        }),
{
    let asked = match max_workers {
        Some(w) => w,
        None => match max_concurrency {
            Some(c) => c,
            None => DEFAULT_AGENT_BATCH_CONCURRENCY,
        },
    };
    if asked < 1 {
        1
    } else if asked > MAX_AGENT_BATCH_CONCURRENCY {
        MAX_AGENT_BATCH_CONCURRENCY
    } else {
        asked
    }
}

/// The file name of a batch's results beside its CSV file: the file's
/// stem (or `agent_job` when it has none) with `.results.csv`.
pub fn results_csv_file_name(stem: Option<&str>) -> (r: String)
    ensures
        r@ == (match stem {
            Some(s) => s@,
            None => "agent_job"@,
        }) + ".results.csv"@,
{
    let mut out = match stem {
        Some(s) => str_chars(s),
        None => str_chars("agent_job"),
    };
    push_str(&mut out, ".results.csv");
    chars_to_string(&out)
}

/// How one item of a batch ended: the result as JSON text, or the error.
#[derive(Debug, Clone, PartialEq, Eq)]
pub struct BatchOutcome {
    pub item_id: String,
    pub result: Option<String>,
    pub error: Option<String>,
}

/// A row of the results file: item id, status, result, error.
pub open spec fn result_row_spec(o: BatchOutcome) -> (Seq<char>, Seq<char>, Seq<char>, Seq<char>) {
    match (o.result, o.error) {
        (Some(res), None) => (o.item_id@, "completed"@, res@, Seq::empty()),
        (_, Some(e)) => (o.item_id@, "failed"@, Seq::empty(), e@),
        (None, None) => (o.item_id@, "failed"@, Seq::empty(), "empty result"@),
    }
}

pub open spec fn completed_count(os: Seq<BatchOutcome>) -> nat
    decreases os.len(),
{
    if os.len() == 0 {
        0
    } else {
        completed_count(os.drop_last()) + if os.last().result is Some && os.last().error is None {
            1nat
        } else {
            0nat
        }
    }
}

/// The items that failed with an error, with the error, in order.
pub open spec fn failures_spec(os: Seq<BatchOutcome>) -> Seq<(Seq<char>, Seq<char>)>
    decreases os.len(),
{
    if os.len() == 0 {
        Seq::empty()
    } else {
        match os.last().error {
            Some(e) => failures_spec(os.drop_last()).push((os.last().item_id@, e@)),
            None => failures_spec(os.drop_last()),
        }
    }
}

/// What a batch reports: the rows of the results file, the counts, the
/// failures and the status.
pub struct BatchSummary {
    pub rows: Vec<(String, String, String, String)>,
    pub completed_items: usize,
    pub failures: Vec<(String, String)>,
    pub status: String,
    pub output_preview: String,
}

pub open spec fn quad_view(v: Seq<(String, String, String, String)>) -> Seq<(Seq<char>, Seq<char>, Seq<char>, Seq<char>)> {
    v.map_values(|q: (String, String, String, String)| (q.0@, q.1@, q.2@, q.3@))
}

pub open spec fn pair_view(v: Seq<(String, String)>) -> Seq<(Seq<char>, Seq<char>)> {
    v.map_values(|q: (String, String)| (q.0@, q.1@))
}

fn copy_string(s: &String) -> (r: String)
    ensures
        r@ == s@,
{
    chars_to_string(&str_chars(s.as_str()))
}

/// Sums up a batch: one results row per outcome; the items completed are
/// those with a result and no error, the failures those with an error; the
/// batch is `completed` without failures, else `completed_with_failures`;
/// the preview gives the counts and where the results went.
pub fn summarize_batch_outcomes(outcomes: &Vec<BatchOutcome>, output_csv_path: &str) -> (r: BatchSummary)
    ensures
        quad_view(r.rows@) == outcomes@.map_values(|o: BatchOutcome| result_row_spec(o)),
        r.completed_items == completed_count(outcomes@),
        pair_view(r.failures@) == failures_spec(outcomes@),
        r.status@ == if failures_spec(outcomes@).len() == 0 {
            "completed"@
        } else {
            "completed_with_failures"@
        },
        r.output_preview@ == "completed "@ + dec_spec(completed_count(outcomes@)) + " row(s), failed "@ + dec_spec(
            failures_spec(outcomes@).len(),
        ) + ", export "@ + output_csv_path@,
{
    let mut rows: Vec<(String, String, String, String)> = Vec::new();
    let mut failures: Vec<(String, String)> = Vec::new();
    let mut completed: usize = 0;
    let mut i: usize = 0;
    while i < outcomes.len()
        invariant
            i <= outcomes@.len(),
            quad_view(rows@) == outcomes@.take(i as int).map_values(|o: BatchOutcome| result_row_spec(o)),
            completed == completed_count(outcomes@.take(i as int)),
            completed <= i,
            pair_view(failures@) == failures_spec(outcomes@.take(i as int)),
        decreases outcomes@.len() - i,
    {
        let o = &outcomes[i];
        proof {
            assert(outcomes@.take(i + 1).drop_last() =~= outcomes@.take(i as int));
        }
        let ghost r0 = quad_view(rows@);
        let ghost f0 = pair_view(failures@);
        match (&o.result, &o.error) {
            (Some(res), None) => {
                completed = completed + 1;
                rows.push((copy_string(&o.item_id), chars_to_string(&str_chars("completed")), copy_string(res), chars_to_string(&Vec::new())));
            },
            (_, Some(e)) => {
                failures.push((copy_string(&o.item_id), copy_string(e)));
                rows.push((copy_string(&o.item_id), chars_to_string(&str_chars("failed")), chars_to_string(&Vec::new()), copy_string(e)));
                assert(pair_view(failures@) =~= f0.push((o.item_id@, e@)));
            },
            (None, None) => {
                rows.push((copy_string(&o.item_id), chars_to_string(&str_chars("failed")), chars_to_string(&Vec::new()), chars_to_string(&str_chars("empty result"))));
            },
        }
        assert(quad_view(rows@) =~= outcomes@.take(i + 1).map_values(|o: BatchOutcome| result_row_spec(o))) by {
            assert(quad_view(rows@) =~= r0.push(result_row_spec(outcomes@[i as int])));
        }
        assert(pair_view(failures@) =~= failures_spec(outcomes@.take(i + 1)));
        i += 1;
    }
    assert(outcomes@.take(outcomes@.len() as int) =~= outcomes@);
    let status = if failures.len() == 0 {
        chars_to_string(&str_chars("completed"))
    } else {
        chars_to_string(&str_chars("completed_with_failures"))
    };
    let mut p = str_chars("completed ");
    push_dec(&mut p, completed as u64);
    push_str(&mut p, " row(s), failed ");
    push_dec(&mut p, failures.len() as u64);
    push_str(&mut p, ", export ");
    push_str(&mut p, output_csv_path);
    proof {
        lemma_failures_len(outcomes@);
    }
    BatchSummary { rows, completed_items: completed, failures, status, output_preview: chars_to_string(&p) }
}

proof fn lemma_failures_len(os: Seq<BatchOutcome>)
    ensures
        failures_spec(os).len() <= os.len(),
    decreases os.len(),
{
    if os.len() > 0 {
        lemma_failures_len(os.drop_last());
    }
}

/// The call as shown: the CSV file, then the instruction cut to 72
/// characters.
pub fn batch_command_preview(csv_path: &str, instruction: &str) -> (r: String)
    ensures
        r@ == csv_path@ + " · "@ + crate::tool_args::truncate_preview_spec(instruction@, 72),
{
    let mut out = str_chars(csv_path);
    push_str(&mut out, " · ");
    push_str(&mut out, crate::tool_args::truncate_preview(instruction, 72).as_str());
    chars_to_string(&out)
}

} // verus!
