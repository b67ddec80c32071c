//! The sending side of a stream: a file, decoded and published to a room.

use vstd::prelude::*;
use vstd::string::StringExecFns;

verus! {

/// Why a publishing stream could not be set up.
#[derive(Clone, Copy, Debug, PartialEq, Eq, Structural)]
pub enum SetupError {
    FailedToCreatePipeline,
}

impl SetupError {
    /// The error in words.
    pub fn message(&self) -> (message: &'static str)
        ensures
            message@ == "failed to create pipeline"@,
    {
        "failed to create pipeline"
    }
}

/// What comes before the token in a pipeline's description.
pub open spec fn description_head() -> Seq<char> {
    "livekitwebrtcsink name=sink signaller::auth-token=\""@
}

/// What stands between the token and the file's address.
pub open spec fn description_middle() -> Seq<char> {
    "\" video-caps=\"video/x-vp8\" audio-caps=\"audio/x-opus\" uridecodebin3 uri=\""@
}

/// What comes after the file's address.
pub open spec fn description_tail() -> Seq<char> {
    "\" name=bin bin. ! queue ! videoconvert ! sink. bin. ! audioconvert ! audioresample ! sink. "@
}

/// The description of the pipeline that decodes the file at `file_path` and
/// publishes its video and audio under `token`. Both are put in as they are.
pub fn pipeline_description(token: &str, file_path: &str) -> (description: String)
    ensures
        description@ == description_head() + token@ + description_middle() + file_path@
            + description_tail(),
{
    String::from_str("livekitwebrtcsink name=sink signaller::auth-token=\"").concat(token).concat(
        "\" video-caps=\"video/x-vp8\" audio-caps=\"audio/x-opus\" uridecodebin3 uri=\"",
    ).concat(file_path).concat(
        "\" name=bin bin. ! queue ! videoconvert ! sink. bin. ! audioconvert ! audioresample ! sink. ",
    )
}

} // verus!
