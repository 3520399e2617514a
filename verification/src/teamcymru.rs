//! The subprocess-based provider: parses the pipe-delimited text protocol of
//! Team Cymru's whois service. Spawning the external tool is the caller's
//! business (the library cannot run processes); the whole interpretation of
//! the invocation's outcome is verified here.

use vstd::prelude::*;
use vstd::string::StrSliceExecFns;
use vstd::string::StringExecFns;
use crate::client::format_provider_error;
use crate::client::provider_error_spec;
use crate::strings::lines_spec;
use crate::strings::split_lines;
use crate::strings::split_spec;
use crate::strings::split_str;
use crate::strings::trim_spec;
use crate::strings::trim_str;
use crate::types::AsnInfo;
use crate::types::AsnInfoView;
use crate::types::ErrorKind;
use crate::types::LookupError;
use crate::types::LookupErrorView;

verus! {

/// Looks up from Team Cymru's whois server, by way of an external
/// whois-style tool whose standard output carries the records.
pub struct TeamCymruWhois;

impl Default for TeamCymruWhois {
    fn default() -> (r: Self)
        ensures
            r == TeamCymruWhois,
    {
        TeamCymruWhois
    }
}

/// What one invocation of the external tool came to: either the process
/// could not be started at all, or it ran to completion with an exit status
/// and its two captured output streams.
pub enum CommandOutcome {
    SpawnFailed { os_error: String },
    Finished { success: bool, stdout: String, stderr: String },
}

/// The record in one output line: the first and third of exactly three
/// pipe-separated fields, each trimmed of surrounding whitespace. A line
/// with any other number of fields carries no record.
pub open spec fn parse_line_spec(line: Seq<char>) -> Option<AsnInfoView> {
    let parts = split_spec(line, '|');
    if parts.len() == 3 {
        Some(AsnInfoView { asn: trim_spec(parts[0]), holder: trim_spec(parts[2]) })
    } else {
        None
    }
}

/// The records in a sequence of lines, in order, lines without a record
/// silently discarded.
pub open spec fn parse_lines_spec(ls: Seq<Seq<char>>) -> Seq<AsnInfoView>
    decreases ls.len(),
{
    if ls.len() == 0 {
        Seq::empty()
    } else {
        parse_lines_spec(ls.drop_last()) + (match parse_line_spec(ls.last()) {
            Some(r) => seq![r],
            None => Seq::<AsnInfoView>::empty(),
        })
    }
}

/// The records in the tool's standard output: every line after the first
/// (the header row) that parses, in order. Header-only or empty output
/// yields no records, not an error.
pub open spec fn cymru_records_spec(stdout: Seq<char>) -> Seq<AsnInfoView> {
    let ls = lines_spec(stdout);
    if ls.len() == 0 {
        Seq::empty()
    } else {
        parse_lines_spec(ls.drop_first())
    }
}

/// The message reported when the tool cannot be started.
pub open spec fn spawn_failed_msg(os_error: Seq<char>) -> Seq<char> {
    provider_error_spec(
        "TeamCymruWhois"@,
        "Command failed: "@ + os_error + ", is whois installed?"@,
    )
}

/// The message reported when the tool exits unsuccessfully.
pub open spec fn command_failed_msg(stderr: Seq<char>) -> Seq<char> {
    provider_error_spec("TeamCymruWhois"@, "Command failed: "@ + trim_spec(stderr))
}

/// The provider's whole decision on an invocation's outcome: a spawn
/// failure and an unsuccessful exit each give an `Other`-kind error with a
/// provider-prefixed message; a successful exit gives the records parsed
/// from standard output.
pub open spec fn interpret_command_spec(outcome: CommandOutcome) -> Result<
    Seq<AsnInfoView>,
    LookupErrorView,
> {
    match outcome {
        CommandOutcome::SpawnFailed { os_error } => Err(
            LookupErrorView { kind: ErrorKind::Other, message: spawn_failed_msg(os_error@) },
        ),
        CommandOutcome::Finished { success, stdout, stderr } => {
            if success {
                Ok(cymru_records_spec(stdout@))
            } else {
                Err(
                    LookupErrorView {
                        kind: ErrorKind::Other,
                        message: command_failed_msg(stderr@),
                    },
                )
            }
        },
    }
}

/// Law: a line that does not split into exactly three fields is silently
/// discarded — appending it to any line sequence changes no record.
pub proof fn lemma_bad_line_discarded(ls: Seq<Seq<char>>, line: Seq<char>)
    requires
        parse_line_spec(line) is None,
    ensures
        parse_lines_spec(ls.push(line)) == parse_lines_spec(ls),
{
    assert(ls.push(line).drop_last() =~= ls);
    assert(parse_lines_spec(ls.push(line)) =~= parse_lines_spec(ls));
}

/// Law: a line with exactly three fields contributes exactly its record,
/// in order, after the records of the lines before it.
pub proof fn lemma_good_line_kept(ls: Seq<Seq<char>>, line: Seq<char>, r: AsnInfoView)
    requires
        parse_line_spec(line) == Some(r),
    ensures
        parse_lines_spec(ls.push(line)) == parse_lines_spec(ls) + seq![r],
{
    assert(ls.push(line).drop_last() =~= ls);
}

/// Law: entirely empty or header-only output yields an empty record list,
/// not an error.
pub proof fn lemma_short_output_yields_no_records(stdout: Seq<char>)
    requires
        lines_spec(stdout).len() <= 1,
    ensures
        cymru_records_spec(stdout) == Seq::<AsnInfoView>::empty(),
{
    let ls = lines_spec(stdout);
    if ls.len() == 1 {
        assert(ls.drop_first() =~= Seq::<Seq<char>>::empty());
    }
}

/// Law: every error this provider emits is prefixed with its name.
pub proof fn lemma_cymru_errors_prefixed(outcome: CommandOutcome)
    ensures
        interpret_command_spec(outcome) matches Err(e) ==> crate::strings::starts_with_spec(
            e.message,
            "["@ + "TeamCymruWhois"@ + "] "@,
        ),
{
    match outcome {
        CommandOutcome::SpawnFailed { os_error } => {
            crate::client::lemma_provider_error_prefixed(
                "TeamCymruWhois"@,
                "Command failed: "@ + os_error@ + ", is whois installed?"@,
            );
        },
        CommandOutcome::Finished { success, stdout, stderr } => {
            if !success {
                crate::client::lemma_provider_error_prefixed(
                    "TeamCymruWhois"@,
                    "Command failed: "@ + trim_spec(stderr@),
                );
            }
        },
    }
}

impl TeamCymruWhois {
    /// The name of the external tool to invoke.
    pub const CMD: &'static str = "whois";

    /// The whois server host handed to the tool as `-h`.
    pub const SERVER: &'static str = "whois.cymru.com";

    /// Parses a line of the tool's output into an `AsnInfo`.
    /// Example output (first line is a header that is skipped, second is a
    /// data line):
    /// AS      | IP               | AS Name
    /// 3561    | 216.90.108.31    | CENTURYLINK-LEGACY-SAVVIS, US
    pub fn parse_asn_info(line: String) -> (r: Option<AsnInfo>)
        ensures
            match r {
                Some(info) => parse_line_spec(line@) == Some(info@),
                None => parse_line_spec(line@) is None,
            },
    {
        let parts = split_str(line.as_str(), '|');
        if parts.len() != 3 {
            return None;
        }
        let asn = String::from_str(trim_str(parts[0].as_str()));
        let holder = String::from_str(trim_str(parts[2].as_str()));
        proof {
            assert(parts.deep_view()[0] == parts@[0]@);
            assert(parts.deep_view()[2] == parts@[2]@);
        }
        Some(AsnInfo { asn, holder })
    }

    /// Parses the tool's whole standard output: the header line is
    /// discarded, every later line that parses contributes its record, and
    /// every line that does not is discarded without failing the call.
    pub fn parse_output(stdout: &str) -> (r: Vec<AsnInfo>)
        ensures
            r.deep_view() == cymru_records_spec(stdout@),
    {
        let lines = split_lines(stdout);
        let ghost ls = lines.deep_view();
        let mut out: Vec<AsnInfo> = Vec::new();
        let n: usize = lines.len();
        if n == 0 {
            return out;
        }
        let mut i: usize = 1;
        proof {
            assert(ls.subrange(1, 1) =~= Seq::<Seq<char>>::empty());
        }
        while i < n
            invariant
                1 <= i <= n,
                n == lines@.len(),
                ls == lines.deep_view(),
                out.deep_view() == parse_lines_spec(ls.subrange(1, i as int)),
            decreases n - i,
        {
            let ghost prefix = ls.subrange(1, i as int);
            let ghost prev_deep = out.deep_view();
            let ghost prev = out@;
            proof {
                assert(ls.subrange(1, i as int + 1).drop_last() =~= prefix);
                assert(ls.subrange(1, i as int + 1).last() == ls[i as int]);
                assert(lines@[i as int]@ == ls[i as int]);
            }
            match Self::parse_asn_info(lines[i].clone()) {
                Some(info) => {
                    out.push(info);
                    proof {
                        assert forall|j: int|
                            0 <= j < prev.len() implies out.deep_view()[j] == prev_deep[j] by {
                            assert(out.deep_view()[j] == out@[j].deep_view());
                            assert(prev_deep[j] == prev[j].deep_view());
                            assert(out@[j] == prev[j]);
                        }
                        assert(out.deep_view()[prev.len() as int] == info@);
                        assert(out.deep_view() =~= parse_lines_spec(ls.subrange(1, i as int + 1)));
                    }
                },
                None => {
                    proof {
                        assert(out.deep_view() =~= parse_lines_spec(ls.subrange(1, i as int + 1)));
                    }
                },
            }
            i = i + 1;
        }
        proof {
            assert(ls.subrange(1, n as int) =~= ls.drop_first());
        }
        out
    }

    /// Decides the lookup's result from the invocation's outcome, following
    /// `interpret_command_spec`. The caller runs the external tool (argv
    /// `[whois, -h, server, ip]`, both output streams captured) and hands
    /// the outcome here.
    pub fn interpret_command(outcome: &CommandOutcome) -> (r: Result<Vec<AsnInfo>, LookupError>)
        ensures
            match r {
                Ok(recs) => interpret_command_spec(*outcome) == Ok::<
                    Seq<AsnInfoView>,
                    LookupErrorView,
                >(recs.deep_view()),
                Err(e) => interpret_command_spec(*outcome) == Err::<
                    Seq<AsnInfoView>,
                    LookupErrorView,
                >(e@),
            },
    {
        match outcome {
            CommandOutcome::SpawnFailed { os_error } => {
                let mut detail = String::from_str("Command failed: ");
                detail.append(os_error.as_str());
                detail.append(", is whois installed?");
                let message = format_provider_error("TeamCymruWhois", detail.as_str());
                Err(LookupError { kind: ErrorKind::Other, message })
            },
            CommandOutcome::Finished { success, stdout, stderr } => {
                if *success {
                    Ok(Self::parse_output(stdout.as_str()))
                } else {
                    let mut detail = String::from_str("Command failed: ");
                    detail.append(trim_str(stderr.as_str()));
                    let message = format_provider_error("TeamCymruWhois", detail.as_str());
                    Err(LookupError { kind: ErrorKind::Other, message })
                }
            },
        }
    }
}

} // verus!
