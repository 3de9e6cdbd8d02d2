//! Collection-only vocabulary and reports: import providers, import modes and
//! export formats, how an import job's progress and outcome read, the value
//! history, the saved sync source and the visibility settings.
use super::holdings::Surface;
use crate::models::{CollectionValuePoint, CollectionVisibility, ImportJob, ImportSummary};
use crate::output::{
    block_view, bool_text, header_view, opt_view, price, push_bool, push_cell, spec_price, table_rows, Block, BlockView,
};
use crate::text::{dec_int, fmt_i64, join, push_i64, seq_join, views};
use vstd::prelude::*;

verus! {

broadcast use vstd::string::group_string_axioms;

/// A provider a collection can be imported from.
#[derive(Debug, Clone, Copy, PartialEq, Eq)]
pub enum Provider {
    Archidekt,
    Moxfield,
}

impl Provider {
    pub open spec fn spec_name(self) -> Seq<char> {
        match self {
            Provider::Archidekt => "archidekt"@,
            Provider::Moxfield => "moxfield"@,
        }
    }

    pub fn as_str(self) -> (r: &'static str)
        ensures
            r@ == self.spec_name(),
    {
        match self {
            Provider::Archidekt => "archidekt",
            Provider::Moxfield => "moxfield",
        }
    }
}

/// How an import combines with what is already held.
#[derive(Debug, Clone, Copy, PartialEq, Eq)]
pub enum Mode {
    Overwrite,
    Replace,
    Merge,
    Smart,
}

impl Mode {
    pub open spec fn spec_name(self) -> Seq<char> {
        match self {
            Mode::Overwrite => "overwrite"@,
            Mode::Replace => "replace"@,
            Mode::Merge => "merge"@,
            Mode::Smart => "smart"@,
        }
    }

    pub fn as_str(self) -> (r: &'static str)
        ensures
            r@ == self.spec_name(),
    {
        match self {
            Mode::Overwrite => "overwrite",
            Mode::Replace => "replace",
            Mode::Merge => "merge",
            Mode::Smart => "smart",
        }
    }
}

/// The provider shape a collection is exported in.
#[derive(Debug, Clone, Copy, PartialEq, Eq)]
pub enum ExportFormat {
    Archidekt,
    Moxfield,
}

impl ExportFormat {
    pub open spec fn spec_name(self) -> Seq<char> {
        match self {
            ExportFormat::Archidekt => "archidekt"@,
            ExportFormat::Moxfield => "moxfield"@,
        }
    }

    pub fn as_str(self) -> (r: &'static str)
        ensures
            r@ == self.spec_name(),
    {
        match self {
            ExportFormat::Archidekt => "archidekt",
            ExportFormat::Moxfield => "moxfield",
        }
    }
}

/// Whether a job has stopped: `complete` or `error`; any other status is polled
/// again.
pub open spec fn spec_job_done(status: Seq<char>) -> bool {
    status == "complete"@ || status == "error"@
}

pub fn job_done(job: &ImportJob) -> (r: bool)
    ensures
        r == spec_job_done(job.status@),
{
    let sc = crate::text::chars_of(job.status.as_str());
    crate::text::chars_equal(sc.as_slice(), "complete") || crate::text::chars_equal(sc.as_slice(), "error")
}

/// The progress line printed while a job runs: its status, then ` fetched/total`,
/// ` n fetched` when the total is unknown, or nothing without progress.
pub open spec fn spec_progress_line(job: ImportJob) -> Seq<char> {
    "  "@ + job.status@ + match job.progress {
        Some(p) => match p.total {
            Some(t) => " "@ + dec_int(p.fetched as int) + "/"@ + dec_int(t as int),
            None => " "@ + dec_int(p.fetched as int) + " fetched"@,
        },
        None => Seq::empty(),
    } + "\u{2026}"@
}

pub fn progress_line(job: &ImportJob) -> (r: String)
    ensures
        r@ == spec_progress_line(*job),
{
    let mut out = String::from_str("  ");
    out.append(job.status.as_str());
    match &job.progress {
        Some(p) => {
            out.append(" ");
            push_i64(&mut out, p.fetched);
            match p.total {
                Some(t) => {
                    out.append("/");
                    push_i64(&mut out, t);
                },
                None => {
                    out.append(" fetched");
                },
            }
        },
        None => {},
    }
    out.append("\u{2026}");
    assert(out@ =~= spec_progress_line(*job));
    out
}

// ---------------------------------------------------------------------------
// Import and sync jobs
// ---------------------------------------------------------------------------

/// Where one import job is read: `{base}/import/jobs/{job_id}`.
pub fn job_path(s: &Surface, job_id: i64) -> (r: String)
    ensures
        r@ == s.base@ + "/import/jobs/"@ + dec_int(job_id as int),
{
    let mut out = s.base.clone();
    out.append("/import/jobs/");
    push_i64(&mut out, job_id);
    out
}

/// The note once a job is enqueued: `Enqueued import job 7 (queued).`; `kind` is
/// `import` or `sync`.
pub open spec fn spec_enqueued_note(kind: Seq<char>, job: ImportJob) -> Seq<char> {
    "Enqueued "@ + kind + " job "@ + dec_int(job.job_id as int) + " ("@ + job.status@ + ")."@
}

pub fn enqueued_note(kind: &str, job: &ImportJob) -> (r: String)
    ensures
        r@ == spec_enqueued_note(kind@, *job),
{
    let mut out = String::from_str("Enqueued ");
    out.append(kind);
    out.append(" job ");
    push_i64(&mut out, job.job_id);
    out.append(" (");
    out.append(job.status.as_str());
    out.append(").");
    out
}

/// What an import reports: its provider and mode, then its counts; the removed
/// count only when some were removed, and a sample of the unmatched rows when
/// there is one.
pub open spec fn spec_print_summary(s: ImportSummary) -> Seq<Seq<char>> {
    seq![
        "Import ("@ + s.provider@ + " / "@ + s.mode@ + "):"@,
        "  rows fetched   : "@ + dec_int(s.total_rows as int),
        "  distinct cards : "@ + dec_int(s.distinct_cards as int),
        "  matched        : "@ + dec_int(s.matched_cards as int),
        "  unmatched      : "@ + dec_int(s.unmatched_cards as int),
        "  regular copies : "@ + dec_int(s.regular_copies as int),
        "  foil copies    : "@ + dec_int(s.foil_copies as int),
    ] + (if s.removed_cards > 0 {
        seq!["  removed        : "@ + dec_int(s.removed_cards as int)]
    } else {
        Seq::empty()
    }) + (if s.unmatched_sample@.len() > 0 {
        seq!["  unmatched e.g. : "@ + seq_join(views(s.unmatched_sample@), ", "@)]
    } else {
        Seq::empty()
    })
}

fn labelled(out: &mut Vec<String>, label: &str, n: i64)
    ensures
        views(final(out)@) == views(old(out)@).push(label@ + dec_int(n as int)),
{
    let mut line = String::from_str(label);
    push_i64(&mut line, n);
    push_cell(out, line);
    assert(views(out@) =~= views(old(out)@).push(label@ + dec_int(n as int)));
}

pub fn print_summary(s: &ImportSummary) -> (r: Vec<String>)
    ensures
        views(r@) == spec_print_summary(*s),
{
    let mut r: Vec<String> = Vec::new();
    let mut head = String::from_str("Import (");
    head.append(s.provider.as_str());
    head.append(" / ");
    head.append(s.mode.as_str());
    head.append("):");
    push_cell(&mut r, head);
    labelled(&mut r, "  rows fetched   : ", s.total_rows);
    labelled(&mut r, "  distinct cards : ", s.distinct_cards);
    labelled(&mut r, "  matched        : ", s.matched_cards);
    labelled(&mut r, "  unmatched      : ", s.unmatched_cards);
    labelled(&mut r, "  regular copies : ", s.regular_copies);
    labelled(&mut r, "  foil copies    : ", s.foil_copies);
    let ghost base = views(r@);
    if s.removed_cards > 0 {
        labelled(&mut r, "  removed        : ", s.removed_cards);
    }
    let ghost mid = views(r@);
    if s.unmatched_sample.len() > 0 {
        let mut line = String::from_str("  unmatched e.g. : ");
        let sample = join(s.unmatched_sample.as_slice(), ", ");
        line.append(sample.as_str());
        push_cell(&mut r, line);
    }
    assert(views(r@) =~= spec_print_summary(*s));
    r
}

/// What a finished (or still running) job reports: a completed job its import
/// summary (or that it completed), a failed one its error, any other its status.
pub open spec fn spec_report_job(job: ImportJob) -> Seq<Seq<char>> {
    if job.status@ == "complete"@ {
        match job.summary {
            Some(summary) => spec_print_summary(summary),
            None => seq!["Job "@ + dec_int(job.job_id as int) + " complete."@],
        }
    } else if job.status@ == "error"@ {
        seq![
            "Job "@ + dec_int(job.job_id as int) + " failed: "@ + match job.error {
                Some(e) => e@,
                None => "unknown error"@,
            },
        ]
    } else {
        seq!["Job "@ + dec_int(job.job_id as int) + " status: "@ + job.status@]
    }
}

pub fn report_job(job: &ImportJob) -> (r: Vec<String>)
    ensures
        views(r@) == spec_report_job(*job),
{
    let sc = crate::text::chars_of(job.status.as_str());
    proof {
        reveal_strlit("complete");
        reveal_strlit("error");
    }
    let mut line = String::from_str("Job ");
    push_i64(&mut line, job.job_id);
    if crate::text::chars_equal(sc.as_slice(), "complete") {
        match &job.summary {
            Some(summary) => print_summary(summary),
            None => {
                line.append(" complete.");
                let mut r: Vec<String> = Vec::new();
                push_cell(&mut r, line);
                assert(views(r@) =~= spec_report_job(*job));
                r
            },
        }
    } else {
        if crate::text::chars_equal(sc.as_slice(), "error") {
            line.append(" failed: ");
            match &job.error {
                Some(e) => line.append(e.as_str()),
                None => line.append("unknown error"),
            }
        } else {
            line.append(" status: ");
            line.append(job.status.as_str());
        }
        let mut r: Vec<String> = Vec::new();
        push_cell(&mut r, line);
        assert(views(r@) =~= spec_report_job(*job));
        r
    }
}

// ---------------------------------------------------------------------------
// Value history
// ---------------------------------------------------------------------------

pub open spec fn spec_value_row(p: CollectionValuePoint) -> Seq<Seq<char>> {
    seq![p.date@, spec_price(opt_view(p.value_usd)), spec_price(opt_view(p.sealed_value_usd))]
}

fn value_row(p: &CollectionValuePoint) -> (r: Vec<String>)
    ensures
        views(r@) == spec_value_row(*p),
{
    let mut row: Vec<String> = Vec::new();
    push_cell(&mut row, p.date.clone());
    push_cell(&mut row, price(&p.value_usd));
    push_cell(&mut row, price(&p.sealed_value_usd));
    assert(views(row@) =~= spec_value_row(*p));
    row
}

/// The value history: per date, the cards' value and the sealed products' value.
pub fn value_history(points: &Vec<CollectionValuePoint>) -> (b: Block)
    ensures
        block_view(b) == BlockView::Table(
            seq!["Date"@, "Cards USD"@, "Sealed USD"@],
            points@.map_values(|p: CollectionValuePoint| spec_value_row(p)),
        ),
{
    let header = vec!["Date", "Cards USD", "Sealed USD"];
    assert(header_view(header@) =~= seq!["Date"@, "Cards USD"@, "Sealed USD"@]);
    let rows = table_rows(points, value_row, Ghost(|p: CollectionValuePoint| spec_value_row(p)));
    Block::Table { header, rows }
}

// ---------------------------------------------------------------------------
// Sync source and visibility
// ---------------------------------------------------------------------------

/// The saved source a collection syncs from.
#[derive(Debug, Clone)]
pub struct CollectionSource {
    pub provider: String,
    pub external_id: String,
    pub url: String,
    pub smart: bool,
    pub last_synced_at: Option<String>,
}

/// The saved source, field by field; `never` when it has not synced yet.
pub open spec fn spec_source_lines(src: CollectionSource) -> Seq<Seq<char>> {
    seq![
        "provider    : "@ + src.provider@,
        "external_id : "@ + src.external_id@,
        "url         : "@ + src.url@,
        "smart       : "@ + bool_text(src.smart),
        "last synced : "@ + match src.last_synced_at {
            Some(t) => t@,
            None => "never"@,
        },
    ]
}

pub fn source_lines(src: &CollectionSource) -> (r: Vec<String>)
    ensures
        views(r@) == spec_source_lines(*src),
{
    let mut r: Vec<String> = Vec::new();
    let mut a = String::from_str("provider    : ");
    a.append(src.provider.as_str());
    push_cell(&mut r, a);
    let mut b = String::from_str("external_id : ");
    b.append(src.external_id.as_str());
    push_cell(&mut r, b);
    let mut c = String::from_str("url         : ");
    c.append(src.url.as_str());
    push_cell(&mut r, c);
    let mut d = String::from_str("smart       : ");
    push_bool(&mut d, src.smart);
    push_cell(&mut r, d);
    let mut e = String::from_str("last synced : ");
    match &src.last_synced_at {
        Some(t) => e.append(t.as_str()),
        None => e.append("never"),
    }
    push_cell(&mut r, e);
    assert(views(r@) =~= spec_source_lines(*src));
    r
}

/// The line once a source is saved: `Saved source: {url} ({provider}).`
pub fn source_saved(src: &CollectionSource) -> (r: String)
    ensures
        r@ == "Saved source: "@ + src.url@ + " ("@ + src.provider@ + ")."@,
{
    let mut out = String::from_str("Saved source: ");
    out.append(src.url.as_str());
    out.append(" (");
    out.append(src.provider.as_str());
    out.append(").");
    out
}

/// The handle as shown: `(none)` when there is none.
pub open spec fn handle_text(h: Option<String>) -> Seq<char> {
    match h {
        Some(h) => h@,
        None => "(none)"@,
    }
}

fn push_handle(out: &mut String, h: &Option<String>)
    ensures
        final(out)@ == old(out)@ + handle_text(*h),
{
    match h {
        Some(h) => out.append(h.as_str()),
        None => out.append("(none)"),
    }
}

/// The visibility settings, one per line.
pub open spec fn spec_visibility_lines(v: CollectionVisibility) -> Seq<Seq<char>> {
    seq![
        "public          : "@ + bool_text(v.public),
        "show_value_chart: "@ + bool_text(v.show_value_chart),
        "show_movers     : "@ + bool_text(v.show_movers),
        "handle          : "@ + handle_text(v.handle),
    ]
}

pub fn visibility_lines(v: &CollectionVisibility) -> (r: Vec<String>)
    ensures
        views(r@) == spec_visibility_lines(*v),
{
    let mut r: Vec<String> = Vec::new();
    let mut a = String::from_str("public          : ");
    push_bool(&mut a, v.public);
    push_cell(&mut r, a);
    let mut b = String::from_str("show_value_chart: ");
    push_bool(&mut b, v.show_value_chart);
    push_cell(&mut r, b);
    let mut c = String::from_str("show_movers     : ");
    push_bool(&mut c, v.show_movers);
    push_cell(&mut r, c);
    let mut d = String::from_str("handle          : ");
    push_handle(&mut d, &v.handle);
    push_cell(&mut r, d);
    assert(views(r@) =~= spec_visibility_lines(*v));
    r
}

/// The line once the visibility is changed: `public: true  ·  handle: ann`.
pub fn visibility_saved(v: &CollectionVisibility) -> (r: String)
    ensures
        r@ == "public: "@ + bool_text(v.public) + "  \u{b7}  handle: "@ + handle_text(v.handle),
{
    let mut out = String::from_str("public: ");
    push_bool(&mut out, v.public);
    out.append("  \u{b7}  handle: ");
    push_handle(&mut out, &v.handle);
    out
}

/// A visibility change must set at least one of the three settings; this is the
/// error otherwise.
pub fn check_visibility_change(public: Option<bool>, value_chart: Option<bool>, movers: Option<bool>) -> (r: Result<
    (),
    String,
>)
    ensures
        r is Ok <==> (public is Some || value_chart is Some || movers is Some),
        r matches Err(e) ==> e@ == "provide at least one of --public / --value-chart / --movers"@,
{
    if public.is_none() && value_chart.is_none() && movers.is_none() {
        Err(String::from_str("provide at least one of --public / --value-chart / --movers"))
    } else {
        Ok(())
    }
}

} // verus!
