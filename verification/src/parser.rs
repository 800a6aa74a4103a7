//! The file parser: drives the classifier, the dispatcher and the
//! inline-block accumulator over the lines of a configuration file.
//!
//! Lines are numbered from 1. Unknown commands and commands with too few
//! argument tokens become warnings; blank lines and comment lines contribute
//! nothing; an inline block that never sees its closing marker before the
//! input ends is silently discarded.

use vstd::prelude::*;

use crate::block::BlockModel;
use crate::block::InlineFileParseState;
use crate::block::inline_directive_model;
use crate::directive::ConfigDirective;
use crate::directive::LineParseResult;
use crate::dispatch::parse_line;
use crate::markers::end_marker_ident;
use crate::markers::is_inline_ident;
use crate::markers::is_inline_option;
use crate::markers::start_marker_ident;
use crate::markers::start_marker;
use crate::model::DirectiveModel;
use crate::model::ParseOutcome;
use crate::model::spec_parse_line;
use crate::text::char_views;
use crate::text::comment_free_prefix;
use crate::text::is_blank_or_comment;
use crate::text::join_lines;
use crate::text::line_is_blank_or_comment;
use crate::text::split_tokens;
use crate::text::strip_comment;
use crate::text::tokens_of;

verus! {

/// One line of the parse result: the 1-based source line number and what the
/// line produced, a [`ConfigDirective`] or a [`ParseWarning`].
#[derive(PartialEq, Eq, Clone, Debug)]
pub struct ConfigLine<T> {
    pub number: i32,
    pub result: T,
}

/// Why a line failed to parse.
#[derive(PartialEq, Eq, Clone, Debug)]
pub enum ParseWarning {
    NotEnoughArguments,
    NoMatchingCommand,
}

/// The result of parsing a whole configuration file: the successfully parsed
/// directives and the per-line warnings, each in encounter order.
pub struct ParsedConfigFile {
    pub success_lines: Vec<ConfigLine<ConfigDirective>>,
    pub warning_lines: Vec<ConfigLine<ParseWarning>>,
}

/// The models of a list of successfully parsed lines.
pub open spec fn success_models(v: Seq<ConfigLine<ConfigDirective>>) -> Seq<
    (int, DirectiveModel),
> {
    Seq::new(v.len(), |j: int| (v[j].number as int, v[j].result@))
}

/// The models of a list of warning lines.
pub open spec fn warning_models(v: Seq<ConfigLine<ParseWarning>>) -> Seq<(int, ParseWarning)> {
    Seq::new(v.len(), |j: int| (v[j].number as int, v[j].result))
}

/// The model of a parse result.
#[verifier::ext_equal]
pub struct ParsedModel {
    pub successes: Seq<(int, DirectiveModel)>,
    pub warnings: Seq<(int, ParseWarning)>,
}

impl View for ParsedConfigFile {
    type V = ParsedModel;

    open spec fn view(&self) -> ParsedModel {
        ParsedModel {
            successes: success_models(self.success_lines@),
            warnings: warning_models(self.warning_lines@),
        }
    }
}

/// The full state of the parse after some prefix of the lines: the open
/// inline block, if any, and both outputs so far.
#[verifier::ext_equal]
pub struct DriverModel {
    pub block: Option<BlockModel>,
    pub successes: Seq<(int, DirectiveModel)>,
    pub warnings: Seq<(int, ParseWarning)>,
}

/// How one line, numbered `n`, advances the parse.
///
/// While a block is open the line either closes it (emitting the block's
/// directive at the start marker's line number) or is collected verbatim.
/// Otherwise the line is, in this order: the start marker of an
/// inline-capable command, a blank or comment line, or a command line whose
/// comment-free tokens go to the dispatcher.
pub open spec fn step_line(st: DriverModel, n: int, line: Seq<char>) -> DriverModel {
    match st.block {
        Some(b) => {
            if end_marker_ident(line) == Some(b.identifier) {
                DriverModel {
                    block: None,
                    successes: st.successes.push(
                        (b.start_line_no, inline_directive_model(b.identifier, join_lines(b.body))),
                    ),
                    warnings: st.warnings,
                }
            } else {
                DriverModel {
                    block: Some(
                        BlockModel {
                            start_line_no: b.start_line_no,
                            identifier: b.identifier,
                            body: b.body.push(line),
                        },
                    ),
                    successes: st.successes,
                    warnings: st.warnings,
                }
            }
        },
        None => {
            if start_marker_ident(line) matches Some(id) && is_inline_ident(id) {
                DriverModel {
                    block: Some(
                        BlockModel {
                            start_line_no: n,
                            identifier: start_marker_ident(line).unwrap(),
                            body: Seq::empty(),
                        },
                    ),
                    successes: st.successes,
                    warnings: st.warnings,
                }
            } else if is_blank_or_comment(line) {
                st
            } else {
                let toks = tokens_of(strip_comment(line));
                if toks.len() == 0 {
                    st
                } else {
                    match spec_parse_line(toks[0], toks.drop_first()) {
                        ParseOutcome::NoMatch => DriverModel {
                            block: st.block,
                            successes: st.successes,
                            warnings: st.warnings.push((n, ParseWarning::NoMatchingCommand)),
                        },
                        ParseOutcome::NotEnough => DriverModel {
                            block: st.block,
                            successes: st.successes,
                            warnings: st.warnings.push((n, ParseWarning::NotEnoughArguments)),
                        },
                        ParseOutcome::Parsed(dm) => DriverModel {
                            block: st.block,
                            successes: st.successes.push((n, dm)),
                            warnings: st.warnings,
                        },
                    }
                }
            }
        },
    }
}

/// The parse state after the lines from position `i` on, numbered from
/// `i + 1`, have been folded over `st`.
pub open spec fn run_lines(lines: Seq<Seq<char>>, i: int, st: DriverModel) -> DriverModel
    decreases lines.len() - i,
{
    if i < 0 || i >= lines.len() {
        st
    } else {
        run_lines(lines, i + 1, step_line(st, i + 1, lines[i]))
    }
}

/// The state the parse starts from: no block open, nothing produced.
pub open spec fn init_state() -> DriverModel {
    DriverModel { block: None, successes: Seq::empty(), warnings: Seq::empty() }
}

/// The complete parse of a file's lines.
pub open spec fn parse_model(lines: Seq<Seq<char>>) -> DriverModel {
    run_lines(lines, 0, init_state())
}

/// The model of the driver's concrete state.
pub open spec fn driver_model(
    block: Option<InlineFileParseState>,
    successes: Seq<ConfigLine<ConfigDirective>>,
    warnings: Seq<ConfigLine<ParseWarning>>,
) -> DriverModel {
    DriverModel {
        block: match block {
            Some(b) => Some(b@),
            None => None,
        },
        successes: success_models(successes),
        warnings: warning_models(warnings),
    }
}

/// Parses the lines of a configuration file, given without their line
/// terminators. Lines are numbered from 1. The two outputs hold, in
/// encounter order, the parsed directives and the warnings; a block left
/// open at the end of the input is discarded.
pub fn parse_lines(lines: &Vec<String>) -> (r: ParsedConfigFile)
    requires
        lines@.len() <= 0x7fff_ffff,
    ensures
        r@.successes == parse_model(char_views(lines@)).successes,
        r@.warnings == parse_model(char_views(lines@)).warnings,
{
    let ghost all = char_views(lines@);
    let mut success_lines: Vec<ConfigLine<ConfigDirective>> = Vec::new();
    let mut warning_lines: Vec<ConfigLine<ParseWarning>> = Vec::new();
    let mut block: Option<InlineFileParseState> = None;
    proof {
        assert(driver_model(block, success_lines@, warning_lines@) =~~= init_state());
    }
    let mut i: usize = 0;
    while i < lines.len()
        invariant
            i <= lines@.len(),
            lines@.len() <= 0x7fff_ffff,
            all == char_views(lines@),
            block matches Some(b) ==> is_inline_ident(b@.identifier),
            run_lines(all, i as int, driver_model(block, success_lines@, warning_lines@))
                == parse_model(all),
        decreases lines@.len() - i,
    {
        let ghost pre = driver_model(block, success_lines@, warning_lines@);
        proof {
            assert(all[i as int] == lines@[i as int]@);
        }
        let line = &lines[i];
        let n = i + 1;
        let cur = block;
        block = None;
        match cur {
            Some(mut st) => {
                if st.is_completed_by_line(line.as_str()) {
                    let ghost prev = success_models(success_lines@);
                    success_lines.push(st.to_config_line());
                    proof {
                        assert(success_models(success_lines@) =~~= step_line(
                            pre,
                            n as int,
                            all[i as int],
                        ).successes);
                        assert(driver_model(block, success_lines@, warning_lines@) =~~= step_line(
                            pre,
                            n as int,
                            all[i as int],
                        ));
                    }
                } else {
                    st.add_line(line.clone());
                    block = Some(st);
                    proof {
                        assert(driver_model(block, success_lines@, warning_lines@) =~~= step_line(
                            pre,
                            n as int,
                            all[i as int],
                        ));
                    }
                }
            },
            None => {
                let mut opened = false;
                match start_marker(line.as_str()) {
                    Some(ident) => {
                        if is_inline_option(ident.as_str()) {
                            block = Some(InlineFileParseState::new(n, ident));
                            opened = true;
                        }
                    },
                    None => {},
                }
                if opened {
                    proof {
                        assert(driver_model(block, success_lines@, warning_lines@) =~~= step_line(
                            pre,
                            n as int,
                            all[i as int],
                        ));
                    }
                } else {
                    if line_is_blank_or_comment(line.as_str()) {
                        proof {
                            assert(driver_model(block, success_lines@, warning_lines@)
                                =~~= step_line(pre, n as int, all[i as int]));
                        }
                    } else {
                        let content = comment_free_prefix(line.as_str());
                        let toks = split_tokens(content);
                        proof {
                            assert(char_views(toks@) == tokens_of(strip_comment(all[i as int])));
                        }
                        if toks.len() == 0 {
                            proof {
                                assert(driver_model(block, success_lines@, warning_lines@)
                                    =~~= step_line(pre, n as int, all[i as int]));
                            }
                        } else {
                            let mut rest: Vec<String> = Vec::new();
                            let mut j: usize = 1;
                            while j < toks.len()
                                invariant
                                    1 <= j <= toks@.len(),
                                    rest@ == toks@.subrange(1, j as int),
                                decreases toks@.len() - j,
                            {
                                rest.push(toks[j].clone());
                                proof {
                                    assert(toks@.subrange(1, j as int).push(toks@[j as int])
                                        =~= toks@.subrange(1, j as int + 1));
                                }
                                j += 1;
                            }
                            proof {
                                assert(char_views(rest@) =~= char_views(toks@).drop_first());
                                assert(char_views(toks@)[0] == toks@[0]@);
                            }
                            let outcome = parse_line(toks[0].as_str(), &rest);
                            match outcome {
                                LineParseResult::NoMatchingCommand => {
                                    warning_lines.push(
                                        ConfigLine {
                                            number: n as i32,
                                            result: ParseWarning::NoMatchingCommand,
                                        },
                                    );
                                },
                                LineParseResult::NotEnoughArguments => {
                                    warning_lines.push(
                                        ConfigLine {
                                            number: n as i32,
                                            result: ParseWarning::NotEnoughArguments,
                                        },
                                    );
                                },
                                LineParseResult::Success(d) => {
                                    success_lines.push(
                                        ConfigLine { number: n as i32, result: d },
                                    );
                                },
                            }
                            proof {
                                assert(driver_model(block, success_lines@, warning_lines@)
                                    =~~= step_line(pre, n as int, all[i as int]));
                            }
                        }
                    }
                }
            },
        }
        i += 1;
    }
    let r = ParsedConfigFile { success_lines, warning_lines };
    proof {
        assert(run_lines(all, lines@.len() as int, driver_model(block, r.success_lines@,
            r.warning_lines@)) == parse_model(all));
        assert(r@.successes =~~= parse_model(all).successes);
        assert(r@.warnings =~~= parse_model(all).warnings);
    }
    r
}

impl ParsedConfigFile {
    /// The successfully parsed directives, in encounter order, without their
    /// line numbers.
    pub fn directives(&self) -> (r: Vec<ConfigDirective>)
        ensures
            r@.len() == self.success_lines@.len(),
            forall|j: int| 0 <= j < r@.len() ==> r@[j]@ == self.success_lines@[j].result@,
    {
        let mut r: Vec<ConfigDirective> = Vec::new();
        let mut i: usize = 0;
        while i < self.success_lines.len()
            invariant
                i <= self.success_lines@.len(),
                r@.len() == i,
                forall|j: int| 0 <= j < i as int ==> r@[j]@ == self.success_lines@[j].result@,
            decreases self.success_lines@.len() - i,
        {
            r.push(self.success_lines[i].result.clone());
            i += 1;
        }
        r
    }
}

} // verus!
