//! Reading the result of a one-shot faster-whisper transcription process.
use vstd::prelude::*;

verus! {

broadcast use vstd::string::group_string_axioms;

/// The fields of the transcription script's JSON output that the result reads
/// (the language probability is carried by the caller).
#[derive(Debug, Clone, PartialEq, Eq)]
pub struct WhisperOutput {
    pub success: bool,
    pub text: Option<String>,
    pub language: Option<String>,
    pub error: Option<String>,
}

/// The optional text of an optional string.
pub open spec fn opt_view(o: Option<String>) -> Option<Seq<char>> {
    match o {
        Some(s) => Some(s@),
        None => None,
    }
}

/// What a transcription process amounts to: the transcript and its language,
/// or the error to report. `parsed` is the process output read as JSON, or why
/// it could not be.
pub open spec fn whisper_outcome(
    process_ok: bool,
    stdout: Seq<char>,
    stderr: Seq<char>,
    parsed: Result<(bool, Option<Seq<char>>, Option<Seq<char>>, Option<Seq<char>>), Seq<char>>,
) -> Result<(Seq<char>, Seq<char>), Seq<char>> {
    if !process_ok {
        match parsed {
            Ok((_, _, _, Some(e))) => Err(e),
            _ => Err("Whisper process failed: "@ + stderr),
        }
    } else {
        match parsed {
            Err(e) => Err("Failed to parse whisper output: "@ + e + "\nOutput: "@ + stdout),
            Ok((success, text, language, error)) => if !success {
                Err(
                    match error {
                        Some(e) => e,
                        None => "Unknown whisper error"@,
                    },
                )
            } else {
                Ok(
                    (
                        match text {
                            Some(t) => t,
                            None => Seq::empty(),
                        },
                        match language {
                            Some(l) => l,
                            None => "ja"@,
                        },
                    ),
                )
            },
        }
    }
}

/// A transcription succeeds exactly when the process exited successfully and its
/// output is JSON that reports success; the transcript is then the output's text
/// (empty when it has none) in the output's language (Japanese, "ja", when it
/// names none). When the process failed, an error that its output names is
/// reported as it stands.
pub proof fn law_whisper_success_and_defaults(
    process_ok: bool,
    stdout: Seq<char>,
    stderr: Seq<char>,
    parsed: Result<(bool, Option<Seq<char>>, Option<Seq<char>>, Option<Seq<char>>), Seq<char>>,
)
    ensures
        whisper_outcome(process_ok, stdout, stderr, parsed) is Ok <==> (process_ok && parsed is Ok
            && parsed->Ok_0.0),
        whisper_outcome(process_ok, stdout, stderr, parsed) is Ok ==> {
            &&& parsed->Ok_0.1 is Some ==> whisper_outcome(process_ok, stdout, stderr, parsed)->Ok_0.0
                == parsed->Ok_0.1->Some_0
            &&& parsed->Ok_0.1 is None ==> whisper_outcome(process_ok, stdout, stderr, parsed)->Ok_0.0
                == Seq::<char>::empty()
            &&& parsed->Ok_0.2 is Some ==> whisper_outcome(process_ok, stdout, stderr, parsed)->Ok_0.1
                == parsed->Ok_0.2->Some_0
            &&& parsed->Ok_0.2 is None ==> whisper_outcome(process_ok, stdout, stderr, parsed)->Ok_0.1
                == "ja"@
        },
        (!process_ok && parsed is Ok && parsed->Ok_0.3 is Some) ==> whisper_outcome(
            process_ok,
            stdout,
            stderr,
            parsed,
        ) == Err::<(Seq<char>, Seq<char>), Seq<char>>(parsed->Ok_0.3->Some_0),
        (!process_ok && !(parsed is Ok && parsed->Ok_0.3 is Some)) ==> whisper_outcome(
            process_ok,
            stdout,
            stderr,
            parsed,
        ) == Err::<(Seq<char>, Seq<char>), Seq<char>>("Whisper process failed: "@ + stderr),
{
}

/// The output as the outcome reads it.
pub open spec fn output_view(parsed: Result<WhisperOutput, String>) -> Result<
    (bool, Option<Seq<char>>, Option<Seq<char>>, Option<Seq<char>>),
    Seq<char>,
> {
    match parsed {
        Ok(o) => Ok((o.success, opt_view(o.text), opt_view(o.language), opt_view(o.error))),
        Err(e) => Err(e@),
    }
}

fn copy_string(s: &String) -> (r: String)
    ensures
        r@ == s@,
{
    s.clone()
}

/// Reads the result of a transcription process: the transcript and its language
/// (Japanese unless the output names one), or the error to report.
pub fn whisper_result(
    process_ok: bool,
    stdout: &str,
    stderr: &str,
    parsed: &Result<WhisperOutput, String>,
) -> (r: Result<(String, String), String>)
    ensures
        match r {
            Ok((t, l)) => whisper_outcome(process_ok, stdout@, stderr@, output_view(*parsed)) == Ok::<
                (Seq<char>, Seq<char>),
                Seq<char>,
            >((t@, l@)),
            Err(e) => whisper_outcome(process_ok, stdout@, stderr@, output_view(*parsed)) == Err::<
                (Seq<char>, Seq<char>),
                Seq<char>,
            >(e@),
        },
{
    if !process_ok {
        if let Ok(out) = parsed {
            if let Some(e) = &out.error {
                return Err(copy_string(e));
            }
        }
        return Err(String::from_str("Whisper process failed: ").concat(stderr));
    }
    match parsed {
        Err(e) => Err(
            String::from_str("Failed to parse whisper output: ").concat(e.as_str()).concat(
                "\nOutput: ",
            ).concat(stdout),
        ),
        Ok(out) => {
            if !out.success {
                return Err(
                    match &out.error {
                        Some(e) => copy_string(e),
                        None => String::from_str("Unknown whisper error"),
                    },
                );
            }
            let text = match &out.text {
                Some(t) => copy_string(t),
                None => String::new(),
            };
            let language = match &out.language {
                Some(l) => copy_string(l),
                None => String::from_str("ja"),
            };
            Ok((text, language))
        },
    }
}

/// Reads the status of a reply of the persistent transcription worker: an error
/// when it reports failure, with its message or `default_message`.
pub fn worker_reply_status(success: bool, error: Option<String>, default_message: &str) -> (r: Result<(), String>)
    ensures
        success ==> r is Ok,
        !success ==> (r matches Err(e) && e@ == match error {
            Some(m) => m@,
            None => default_message@,
        }),
{
    if success {
        Ok(())
    } else {
        match error {
            Some(m) => Err(m),
            None => Err(String::from_str(default_message)),
        }
    }
}

} // verus!
