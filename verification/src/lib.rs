//! Validates free-text timesheet entries against a catalog of known
//! projects and tasks, reporting every defect of every line: the text is
//! split into lines, empty lines are skipped without disturbing the line
//! numbering, each remaining line is parsed independently, and all failures
//! are rendered into one deterministic report.
use vstd::prelude::*;

pub mod activity;
pub mod activity_line;
pub mod harvest;
pub mod line_error;
pub mod list_with_names;
pub mod named;
pub mod parse_error;
pub mod project;
pub mod project_error;
pub mod projects;
pub mod task;
pub mod tasks;
pub mod text;
pub mod time;

use crate::activity_line::{ActivityLine, field_separator, line_field_errors};
use crate::line_error::LineError;
use crate::parse_error::{ArgumentParseError, too_few_arguments_message};
use crate::project::ProjectWithTasks;
use crate::projects::Projects;
use crate::text::{dec_str, join_lines, join_nl, lines_spec, split_lines, split_spec};

verus! {

/// The report messages of one input line: nothing for an empty line, the
/// fixed structural message for a line of fewer than seven fields, and one
/// message per field failure otherwise.
pub open spec fn line_report_messages(
    line: Seq<char>,
    projects: Seq<ProjectWithTasks>,
) -> Seq<Seq<char>> {
    if line.len() == 0 {
        seq![]
    } else if split_spec(line, field_separator()).len() < 7 {
        seq![too_few_arguments_message()]
    } else {
        line_field_errors(line, projects).map_values(
            |e: ArgumentParseError| e.message_spec(),
        )
    }
}

/// The fully rendered report lines of one input line at its position.
pub open spec fn line_report(
    line: Seq<char>,
    index: nat,
    projects: Seq<ProjectWithTasks>,
) -> Seq<Seq<char>> {
    line_report_messages(line, projects).map_values(
        |m: Seq<char>| dec_str(index) + seq![' ', '|', ' '] + m,
    )
}

/// All rendered report lines of the input, ordered by line, then by field.
pub open spec fn report_items(
    lines: Seq<Seq<char>>,
    projects: Seq<ProjectWithTasks>,
) -> Seq<Seq<char>>
    decreases lines.len(),
{
    if lines.len() == 0 {
        seq![]
    } else {
        report_items(lines.drop_last(), projects) + line_report(
            lines.last(),
            (lines.len() - 1) as nat,
            projects,
        )
    }
}

/// The full validation report of a text against a catalog.
pub open spec fn report_spec(text: Seq<char>, projects: Seq<ProjectWithTasks>) -> Seq<char> {
    join_nl(report_items(lines_spec(text), projects))
}

proof fn lemma_report_items_step(lines: Seq<Seq<char>>, projects: Seq<ProjectWithTasks>, i: int)
    requires
        0 <= i < lines.len(),
    ensures
        report_items(lines.take(i + 1), projects) == report_items(lines.take(i), projects)
            + line_report(lines[i], i as nat, projects),
{
    assert(lines.take(i + 1).drop_last() =~= lines.take(i));
    assert(lines.take(i + 1).last() == lines[i]);
}

/// Appends the rendered form of each line error to the report lines.
fn push_rendered(rendered: &mut Vec<String>, line_errors: &Vec<LineError>)
    ensures
        final(rendered)@.len() == old(rendered)@.len() + line_errors@.len(),
        forall|j: int|
            0 <= j < old(rendered)@.len() ==> final(rendered)@[j] == old(rendered)@[j],
        forall|j: int|
            0 <= j < line_errors@.len() ==> (#[trigger] final(rendered)@[old(rendered)@.len()
                + j])@ == line_errors@[j].render_spec(),
{
    let mut k: usize = 0;
    while k < line_errors.len()
        invariant
            k <= line_errors@.len(),
            line_errors@.len() == line_errors.len(),
            rendered@.len() == old(rendered)@.len() + k,
            forall|j: int| 0 <= j < old(rendered)@.len() ==> rendered@[j] == old(rendered)@[j],
            forall|j: int|
                0 <= j < k ==> (#[trigger] rendered@[old(rendered)@.len() + j])@
                    == line_errors@[j].render_spec(),
        decreases line_errors@.len() - k,
    {
        let s = line_errors[k].render();
        rendered.push(s);
        k += 1;
    }
}

/// A non-empty line of fewer than seven fields yields exactly one report
/// line: the fixed structural message at the line's position, with no
/// field-level detail.
pub proof fn lemma_short_line_single_error(
    line: Seq<char>,
    index: nat,
    projects: Seq<ProjectWithTasks>,
)
    requires
        line.len() > 0,
        split_spec(line, field_separator()).len() < 7,
    ensures
        line_report(line, index, projects) =~= seq![
            dec_str(index) + seq![' ', '|', ' '] + too_few_arguments_message(),
        ],
{
}

/// An empty line contributes no report lines at all.
pub proof fn lemma_blank_line_contributes_nothing(
    index: nat,
    projects: Seq<ProjectWithTasks>,
)
    ensures
        line_report(Seq::<char>::empty(), index, projects) =~= Seq::<Seq<char>>::empty(),
{
}

/// A blank line is skipped without consuming a report slot, and the lines
/// around it keep their own original positions.
pub proof fn lemma_blank_line_skipped(
    lines: Seq<Seq<char>>,
    projects: Seq<ProjectWithTasks>,
    i: int,
)
    requires
        0 <= i < lines.len(),
        lines[i].len() == 0,
    ensures
        report_items(lines.take(i + 1), projects) == report_items(lines.take(i), projects),
{
    lemma_report_items_step(lines, projects, i);
    assert(line_report(lines[i], i as nat, projects) =~= Seq::<Seq<char>>::empty());
    assert(report_items(lines.take(i), projects) + Seq::<Seq<char>>::empty()
        =~= report_items(lines.take(i), projects));
}

/// Validation is deterministic: two reports of the same text against the
/// same catalog are byte-identical.
pub proof fn lemma_validate_deterministic(
    text: Seq<char>,
    projects: Seq<ProjectWithTasks>,
    first: Seq<char>,
    second: Seq<char>,
)
    requires
        first == report_spec(text, projects),
        second == report_spec(text, projects),
    ensures
        first == second,
{
}

/// Validates the text against the catalog: every line is parsed
/// independently, empty lines are skipped without shifting the numbering of
/// later lines, and every failure of every line is rendered, ordered by
/// line and then by field.  An empty report means every line parsed.
pub fn validate(text: &str, projects: &Projects) -> (r: String)
    ensures
        r@ == report_spec(text@, projects.projects@),
{
    let lines = split_lines(text);
    let ghost all = lines_spec(text@);
    let ghost ps = projects.projects@;
    let mut rendered: Vec<String> = Vec::new();
    let mut i: usize = 0;
    proof {
        assert(all.take(0) =~= Seq::<Seq<char>>::empty());
        assert(rendered.deep_view() =~~= report_items(all.take(0), ps));
    }
    while i < lines.len()
        invariant
            lines.deep_view() == all,
            all == lines_spec(text@),
            ps == projects.projects@,
            lines@.len() == lines.len(),
            all.len() == lines@.len(),
            i <= lines@.len(),
            rendered.deep_view() == report_items(all.take(i as int), ps),
        decreases lines@.len() - i,
    {
        proof {
            lemma_report_items_step(all, ps, i as int);
            assert(lines@[i as int]@ == all[i as int]);
        }
        let ghost pre = rendered.deep_view();
        if !lines[i].as_str().is_empty() {
            let activity_line = ActivityLine::new(lines[i].as_str());
            match activity_line.parse(projects) {
                Ok(_) => {
                    proof {
                        assert(line_report_messages(all[i as int], ps)
                            =~= Seq::<Seq<char>>::empty());
                        assert(line_report(all[i as int], i as nat, ps)
                            =~= Seq::<Seq<char>>::empty());
                        assert(rendered.deep_view() =~~= report_items(all.take(i + 1), ps));
                    }
                },
                Err(parse_error) => {
                    let ghost pe = parse_error;
                    let line_errors = parse_error.at_line(i);
                    push_rendered(&mut rendered, &line_errors);
                    proof {
                        assert(pe.messages_spec() =~= line_report_messages(all[i as int], ps));
                        let lr = line_report(all[i as int], i as nat, ps);
                        assert forall|j: int| 0 <= j < lr.len() implies rendered.deep_view()[
                            pre.len() + j
                        ] =~= lr[j] by {
                            assert(line_errors@[j].render_spec() == dec_str(i as nat)
                                + seq![' ', '|', ' '] + pe.messages_spec()[j]);
                        }
                        assert(rendered.deep_view() =~~= report_items(all.take(i + 1), ps));
                    }
                },
            }
        } else {
            proof {
                assert(line_report(all[i as int], i as nat, ps) =~= Seq::<Seq<char>>::empty());
                assert(rendered.deep_view() =~~= report_items(all.take(i + 1), ps));
            }
        }
        i += 1;
    }
    proof {
        assert(all.take(all.len() as int) =~= all);
    }
    join_lines(&rendered)
}

} // verus!
