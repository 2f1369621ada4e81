//! Rendering the lines of a source into the exact text written to standard
//! output, under the active numbering mode, and the diagnostic line written
//! when a source cannot be opened.

use vstd::prelude::*;
use vstd::string::StringExecFns;
use crate::config::Mode;
use crate::numeral::format_count;
use crate::numeral::padded_decimal;

verus! {

/// The line terminator that ends every output line.
pub open spec fn newline() -> Seq<char> {
    seq!['\n']
}

/// The tab that separates a printed number from the line content.
pub open spec fn tab() -> Seq<char> {
    seq!['\t']
}

/// The prefix a numbered line carries: the count in its padded field,
/// followed by a tab.
pub open spec fn numbered_prefix(k: nat) -> Seq<char> {
    padded_decimal(k) + tab()
}

/// How many of the first `k` lines are non-blank.
pub open spec fn nonblank_count(lines: Seq<Seq<char>>, k: int) -> nat
    decreases k,
{
    if k <= 0 {
        0
    } else {
        nonblank_count(lines, k - 1) + (if lines[k - 1].len() == 0 {
            0nat
        } else {
            1nat
        })
    }
}

/// The text written for line `i` of a source, terminator included.
pub open spec fn rendered_line(mode: Mode, lines: Seq<Seq<char>>, i: int) -> Seq<char> {
    match mode {
        Mode::Plain => lines[i] + newline(),
        Mode::NumberAll => numbered_prefix((i + 1) as nat) + lines[i] + newline(),
        Mode::NumberNonblank => if lines[i].len() == 0 {
            newline()
        } else {
            numbered_prefix(nonblank_count(lines, i + 1)) + lines[i] + newline()
        },
    }
}

/// The text written for the first `k` lines of a source, in order.
pub open spec fn output_up_to(mode: Mode, lines: Seq<Seq<char>>, k: int) -> Seq<char>
    decreases k,
{
    if k <= 0 {
        Seq::<char>::empty()
    } else {
        output_up_to(mode, lines, k - 1) + rendered_line(mode, lines, k - 1)
    }
}

/// The whole text written for one source. Both counters that the numbering
/// modes use start afresh with each source: this output depends on the
/// source's own lines alone.
pub open spec fn source_output(mode: Mode, lines: Seq<Seq<char>>) -> Seq<char> {
    output_up_to(mode, lines, lines.len() as int)
}

/// The text written for the first `k` readable sources of a run, in order.
/// No separator stands between sources.
pub open spec fn run_output_up_to(mode: Mode, sources: Seq<Seq<Seq<char>>>, k: int) -> Seq<char>
    decreases k,
{
    if k <= 0 {
        Seq::<char>::empty()
    } else {
        run_output_up_to(mode, sources, k - 1) + source_output(mode, sources[k - 1])
    }
}

/// The whole standard output of a run over the readable sources, given the
/// lines of each: the concatenation of the sources' outputs, in order.
pub open spec fn run_output(mode: Mode, sources: Seq<Seq<Seq<char>>>) -> Seq<char> {
    run_output_up_to(mode, sources, sources.len() as int)
}

/// The diagnostic line written when a source cannot be opened: the
/// identifier, a colon and a space, and the cause.
pub open spec fn diagnostic_line(identifier: Seq<char>, cause: Seq<char>) -> Seq<char> {
    identifier + seq![':', ' '] + cause
}

/// Each line of a source with the line terminator appended.
pub open spec fn terminated(lines: Seq<Seq<char>>) -> Seq<Seq<char>> {
    lines.map_values(|l: Seq<char>| l + newline())
}

/// The verbatim text of one source: its lines concatenated, each followed
/// by one line terminator.
pub open spec fn verbatim(lines: Seq<Seq<char>>) -> Seq<char> {
    terminated(lines).flatten()
}

/// The verbatim text of each source of a run.
pub open spec fn verbatim_of_each(sources: Seq<Seq<Seq<char>>>) -> Seq<Seq<char>> {
    sources.map_values(|ls: Seq<Seq<char>>| verbatim(ls))
}

proof fn lemma_plain_prefix(lines: Seq<Seq<char>>, k: int)
    requires
        0 <= k <= lines.len(),
    ensures
        output_up_to(Mode::Plain, lines, k) == terminated(lines).take(k).flatten_alt(),
    decreases k,
{
    let t = terminated(lines);
    if k <= 0 {
        assert(t.take(0) =~= Seq::<Seq<char>>::empty());
    } else {
        lemma_plain_prefix(lines, k - 1);
        assert(t.take(k).drop_last() =~= t.take(k - 1));
        assert(t.take(k).last() == lines[k - 1] + newline());
        assert(t.take(k).flatten_alt() == t.take(k - 1).flatten_alt() + rendered_line(
            Mode::Plain,
            lines,
            k - 1,
        ));
    }
}

/// Law: in plain mode, the output for one source is the verbatim
/// concatenation of its lines, each followed by one line terminator.
pub proof fn lemma_plain_output_is_verbatim(lines: Seq<Seq<char>>)
    ensures
        source_output(Mode::Plain, lines) == verbatim(lines),
{
    lemma_plain_prefix(lines, lines.len() as int);
    assert(terminated(lines).take(lines.len() as int) =~= terminated(lines));
    terminated(lines).lemma_flatten_and_flatten_alt_are_equivalent();
}

proof fn lemma_plain_run_prefix(sources: Seq<Seq<Seq<char>>>, k: int)
    requires
        0 <= k <= sources.len(),
    ensures
        run_output_up_to(Mode::Plain, sources, k) == verbatim_of_each(sources).take(
            k,
        ).flatten_alt(),
    decreases k,
{
    let m = verbatim_of_each(sources);
    if k <= 0 {
        assert(m.take(0) =~= Seq::<Seq<char>>::empty());
    } else {
        lemma_plain_run_prefix(sources, k - 1);
        lemma_plain_output_is_verbatim(sources[k - 1]);
        assert(m.take(k).drop_last() =~= m.take(k - 1));
        assert(m.take(k).last() == verbatim(sources[k - 1]));
        assert(m.take(k).flatten_alt() == m.take(k - 1).flatten_alt() + source_output(
            Mode::Plain,
            sources[k - 1],
        ));
    }
}

/// Law: in plain mode, the output of a whole run equals the verbatim
/// concatenation of all readable sources' lines (each followed by one
/// line terminator), in source order.
pub proof fn lemma_plain_run_is_verbatim(sources: Seq<Seq<Seq<char>>>)
    ensures
        run_output(Mode::Plain, sources) == verbatim_of_each(sources).flatten(),
{
    lemma_plain_run_prefix(sources, sources.len() as int);
    assert(verbatim_of_each(sources).take(sources.len() as int) =~= verbatim_of_each(sources));
    verbatim_of_each(sources).lemma_flatten_and_flatten_alt_are_equivalent();
}

/// Law: a run's output is assembled source by source, and the text for a
/// source is `source_output` of that source's own lines alone — the
/// per-source counters restart with every source, whatever came before it.
pub proof fn lemma_run_appends_sources(mode: Mode, sources: Seq<Seq<Seq<char>>>, j: int)
    requires
        0 <= j < sources.len(),
    ensures
        run_output_up_to(mode, sources, j + 1) == run_output_up_to(mode, sources, j)
            + source_output(mode, sources[j]),
{
}

/// Law: in numbered mode, the line at index `k` of a source (the 1-based
/// line `k + 1`) is printed with exactly that ordinal in the padded field,
/// then a tab, the line, and the terminator — whatever the line holds.
pub proof fn lemma_number_all_line(lines: Seq<Seq<char>>, k: int)
    requires
        0 <= k < lines.len(),
    ensures
        rendered_line(Mode::NumberAll, lines, k) == padded_decimal((k + 1) as nat) + tab()
            + lines[k] + newline(),
{
}

/// Law: `nonblank_count(lines, k)` is exactly the number of non-blank
/// lines among the first `k` lines.
pub proof fn lemma_nonblank_count_is_filter(lines: Seq<Seq<char>>, k: int)
    requires
        0 <= k <= lines.len(),
    ensures
        nonblank_count(lines, k) == lines.take(k).filter(|l: Seq<char>| l.len() > 0).len(),
    decreases k,
{
    reveal(Seq::filter);
    if k > 0 {
        lemma_nonblank_count_is_filter(lines, k - 1);
        assert(lines.take(k).drop_last() =~= lines.take(k - 1));
        assert(lines.take(k).last() == lines[k - 1]);
    }
}

/// Law: in non-blank-numbered mode a blank line prints as the bare line
/// terminator, with no number; a non-blank line at index `k` prints with
/// the count of non-blank lines among the first `k + 1` lines — its
/// 1-based rank among the source's non-blank lines.
pub proof fn lemma_number_nonblank_line(lines: Seq<Seq<char>>, k: int)
    requires
        0 <= k < lines.len(),
    ensures
        lines[k].len() == 0 ==> rendered_line(Mode::NumberNonblank, lines, k) == newline(),
        lines[k].len() > 0 ==> rendered_line(Mode::NumberNonblank, lines, k) == padded_decimal(
            nonblank_count(lines, k) + 1,
        ) + tab() + lines[k] + newline(),
        lines[k].len() > 0 ==> nonblank_count(lines, k + 1) == nonblank_count(lines, k) + 1,
{
}

/// Appends the line terminator to `out`.
fn append_newline(out: &mut String)
    ensures
        final(out)@ == old(out)@ + newline(),
{
    proof {
        reveal_strlit("\n");
    }
    out.append("\n");
    proof {
        assert(out@ =~= old(out)@ + newline());
    }
}

/// Appends the number-field separator to `out`.
fn append_tab(out: &mut String)
    ensures
        final(out)@ == old(out)@ + tab(),
{
    proof {
        reveal_strlit("\t");
    }
    out.append("\t");
    proof {
        assert(out@ =~= old(out)@ + tab());
    }
}

/// Renders every line of one source under `mode`, producing exactly the
/// text that the run writes to standard output for that source.
pub fn process_source(mode: Mode, lines: &Vec<String>) -> (out: String)
    ensures
        out@ == source_output(mode, lines.deep_view()),
{
    let ghost ls = lines.deep_view();
    let mut out = String::new();
    let mut nonblank: usize = 0;
    let mut i: usize = 0;
    while i < lines.len()
        invariant
            i <= lines@.len(),
            ls == lines.deep_view(),
            nonblank <= i,
            mode is NumberNonblank ==> nonblank as nat == nonblank_count(ls, i as int),
            out@ == output_up_to(mode, ls, i as int),
        decreases lines@.len() - i,
    {
        let line = &lines[i];
        proof {
            assert(ls[i as int] == lines@[i as int]@);
        }
        let ghost prev = out@;
        match mode {
            Mode::Plain => {
                out.append(line.as_str());
                append_newline(&mut out);
                proof {
                    assert(out@ =~= prev + rendered_line(mode, ls, i as int));
                }
            },
            Mode::NumberAll => {
                let num = format_count(i + 1);
                out.append(num.as_str());
                append_tab(&mut out);
                out.append(line.as_str());
                append_newline(&mut out);
                proof {
                    assert(out@ =~= prev + rendered_line(mode, ls, i as int));
                }
            },
            Mode::NumberNonblank => {
                if line.as_str().is_empty() {
                    append_newline(&mut out);
                    proof {
                        assert(out@ =~= prev + rendered_line(mode, ls, i as int));
                    }
                } else {
                    let num = format_count(nonblank + 1);
                    out.append(num.as_str());
                    append_tab(&mut out);
                    out.append(line.as_str());
                    append_newline(&mut out);
                    nonblank = nonblank + 1;
                    proof {
                        assert(nonblank as nat == nonblank_count(ls, i + 1));
                        assert(out@ =~= prev + rendered_line(mode, ls, i as int));
                    }
                }
            },
        }
        i = i + 1;
    }
    proof {
        assert(out@ =~= source_output(mode, ls));
    }
    out
}

/// Builds the diagnostic line for a source that could not be opened.
pub fn format_diagnostic(identifier: &str, cause: &str) -> (out: String)
    ensures
        out@ == diagnostic_line(identifier@, cause@),
{
    let mut out = String::new();
    out.append(identifier);
    proof {
        reveal_strlit(": ");
        assert(": "@ =~= seq![':', ' ']);
    }
    out.append(": ");
    out.append(cause);
    proof {
        assert(out@ =~= diagnostic_line(identifier@, cause@));
    }
    out
}

} // verus!
