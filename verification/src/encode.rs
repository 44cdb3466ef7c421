//! The decisions around the encoder: which codestream format an output asks
//! for, and the fixed order of the encoder's steps with what a failed step reports.
use vstd::prelude::*;
use crate::text::str_equals;

verus! {

/// The two JPEG 2000 file formats that the encoder writes.
#[derive(Clone, Copy, Debug, PartialEq, Eq)]
pub enum CodecFormat {
    /// A bare codestream (`.j2k`).
    J2k,
    /// A codestream in a JP2 container (`.jp2`).
    Jp2,
}

/// The format that an output file extension asks for, if any; the extension is
/// compared as given, letter case included.
pub open spec fn format_for_extension(ext: Option<Seq<char>>) -> Option<CodecFormat> {
    match ext {
        Some(e) => if e == "j2k"@ {
            Some(CodecFormat::J2k)
        } else if e == "jp2"@ {
            Some(CodecFormat::Jp2)
        } else {
            None
        },
        None => None,
    }
}

/// The message for an output whose extension names no format.
pub open spec fn bad_extension_message(output: Seq<char>) -> Seq<char> {
    "Output file extension must be .j2k or .jp2: "@ + output
}

/// The format for an output file with extension `ext` (`None` where the file
/// name has none); `output` is the output path as it is shown in messages.
pub fn codec_format_for_extension(ext: Option<&str>, output: &str) -> (r: Result<CodecFormat, String>)
    ensures
        format_for_extension(
            match ext {
                Some(e) => Some(e@),
                None => None,
            },
        ) matches Some(f) ==> r == Ok::<CodecFormat, String>(f),
        format_for_extension(
            match ext {
                Some(e) => Some(e@),
                None => None,
            },
        ) is None ==> (r matches Err(m) && m@ == bad_extension_message(output@)),
{
    match ext {
        Some(e) => {
            if str_equals(e, "j2k") {
                return Ok(CodecFormat::J2k);
            } else if str_equals(e, "jp2") {
                return Ok(CodecFormat::Jp2);
            }
        },
        None => {},
    }
    let mut m = String::from_str("Output file extension must be .j2k or .jp2: ");
    m.append(output);
    Err(m)
}

/// The encoder's steps, in the order they run.
#[derive(Clone, Copy, Debug, PartialEq, Eq)]
pub enum EncodeStage {
    SetupEncoder,
    StartCompress,
    Encode,
    EndCompress,
}

/// What follows a step.
#[derive(Debug)]
pub enum StageStep {
    /// Run this step next.
    Run(EncodeStage),
    /// All steps succeeded.
    Finished,
    /// A step failed; the message says which.
    Failed(String),
}

impl EncodeStage {
    /// The step that comes after this one, if any.
    pub open spec fn next_of(self) -> Option<EncodeStage> {
        match self {
            EncodeStage::SetupEncoder => Some(EncodeStage::StartCompress),
            EncodeStage::StartCompress => Some(EncodeStage::Encode),
            EncodeStage::Encode => Some(EncodeStage::EndCompress),
            EncodeStage::EndCompress => None,
        }
    }

    /// The name of the codec call that performs the step.
    pub open spec fn name_text(self) -> Seq<char> {
        match self {
            EncodeStage::SetupEncoder => "setup_encoder"@,
            EncodeStage::StartCompress => "start_compress"@,
            EncodeStage::Encode => "encode"@,
            EncodeStage::EndCompress => "end_compress"@,
        }
    }

    /// The first step.
    pub fn first() -> (s: EncodeStage)
        ensures
            s == EncodeStage::SetupEncoder,
    {
        EncodeStage::SetupEncoder
    }

    /// The name of the codec call that performs the step.
    pub fn name(&self) -> (s: &'static str)
        ensures
            s@ == self.name_text(),
    {
        match self {
            EncodeStage::SetupEncoder => "setup_encoder",
            EncodeStage::StartCompress => "start_compress",
            EncodeStage::Encode => "encode",
            EncodeStage::EndCompress => "end_compress",
        }
    }
}

/// What follows step `stage` whose codec call returned `status`: a zero status
/// is a failure, reported as `<name> failed`; any other moves to the next step,
/// or finishes after the last.
pub fn advance(stage: EncodeStage, status: i32) -> (r: StageStep)
    ensures
        status == 0 ==> (r matches StageStep::Failed(m) && m@ == stage.name_text() + " failed"@),
        status != 0 ==> (match stage.next_of() {
            Some(n) => r == StageStep::Run(n),
            None => r is Finished,
        }),
{
    if status == 0 {
        let mut m = String::from_str(stage.name());
        m.append(" failed");
        return StageStep::Failed(m);
    }
    match stage {
        EncodeStage::SetupEncoder => StageStep::Run(EncodeStage::StartCompress),
        EncodeStage::StartCompress => StageStep::Run(EncodeStage::Encode),
        EncodeStage::Encode => StageStep::Run(EncodeStage::EndCompress),
        EncodeStage::EndCompress => StageStep::Finished,
    }
}

/// The step reached after `k` successful steps from `stage` (`None` once all
/// steps are done).
pub open spec fn after_successes(stage: Option<EncodeStage>, k: nat) -> Option<EncodeStage>
    decreases k,
{
    if k == 0 {
        stage
    } else {
        match stage {
            Some(s) => after_successes(s.next_of(), (k - 1) as nat),
            None => None,
        }
    }
}

/// From the first step, the encoder is done after exactly four successful
/// steps, which are setup, start, encode and end, in that order.
pub proof fn lemma_four_steps_finish(k: nat)
    ensures
        after_successes(Some(EncodeStage::SetupEncoder), 1) == Some(EncodeStage::StartCompress),
        after_successes(Some(EncodeStage::SetupEncoder), 2) == Some(EncodeStage::Encode),
        after_successes(Some(EncodeStage::SetupEncoder), 3) == Some(EncodeStage::EndCompress),
        (after_successes(Some(EncodeStage::SetupEncoder), k) is None) == (k >= 4),
{
    reveal_with_fuel(after_successes, 5);
    if k >= 4 {
        lemma_none_stays_none((k - 4) as nat);
        assert(after_successes(Some(EncodeStage::SetupEncoder), k) == after_successes(
            None,
            (k - 4) as nat,
        ));
    }
}

proof fn lemma_none_stays_none(k: nat)
    ensures
        after_successes(None, k) is None,
{
}

/// The message for an encoder whose setup failed.
pub open spec fn setup_failed_message() -> Seq<char> {
    "Failed to setup OpenJPEG encoder"@
}

/// The outcome of the encoder setup call that returned `status`: a failure
/// exactly when it returned the codec's `false` (0).
pub fn setup_outcome(status: i32) -> (r: Result<(), String>)
    ensures
        status != 0 ==> r is Ok,
        status == 0 ==> (r matches Err(m) && m@ == setup_failed_message()),
{
    if status == 0 {
        Err(String::from_str("Failed to setup OpenJPEG encoder"))
    } else {
        Ok(())
    }
}

/// Whether the three compression calls all returned the codec's `true` (1).
pub open spec fn compress_succeeded(start: i32, encode: i32, end: i32) -> bool {
    start == 1 && encode == 1 && end == 1
}

/// The message for an output whose compression failed.
pub open spec fn encoding_failed_message(output: Seq<char>) -> Seq<char> {
    "OpenJPEG encoding failed for: "@ + output
}

/// The outcome of a compression whose start, encode and end calls returned
/// `start_res`, `encode_res` and `end_res`; `output` is the output path as it is
/// shown in messages.
pub fn compress_outcome(start_res: i32, encode_res: i32, end_res: i32, output: &str) -> (r: Result<
    (),
    String,
>)
    ensures
        compress_succeeded(start_res, encode_res, end_res) ==> r is Ok,
        !compress_succeeded(start_res, encode_res, end_res) ==> (r matches Err(m) && m@
            == encoding_failed_message(output@)),
{
    if start_res == 1 && encode_res == 1 && end_res == 1 {
        Ok(())
    } else {
        let mut m = String::from_str("OpenJPEG encoding failed for: ");
        m.append(output);
        Err(m)
    }
}

/// A compression is reported successful only when each of its three calls,
/// start, encode and end, returned the codec's `true` (1); any other status
/// from any one of them makes it a failure.
pub proof fn lemma_compress_needs_all_three(start: i32, encode: i32, end: i32)
    ensures
        compress_succeeded(start, encode, end) <==> (start == 1 && encode == 1 && end == 1),
        start != 1 ==> !compress_succeeded(start, encode, end),
        encode != 1 ==> !compress_succeeded(start, encode, end),
        end != 1 ==> !compress_succeeded(start, encode, end),
{
}

} // verus!
