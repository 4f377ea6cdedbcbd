use vstd::prelude::*;

verus! {

/// Name of the event that carries stage changes to the user interface.
pub const STAGE_EVENT: &'static str = "processing_stage_update";

/// A phase of work that the user interface is told about.
#[derive(PartialEq, Eq, Structural, Clone, Copy)]
pub enum ProcessingStage {
    ProcessingApi,
    Transcribing,
    SynthesizingVoice,
}

pub open spec fn stage_label(s: ProcessingStage) -> Seq<char> {
    match s {
        ProcessingStage::ProcessingApi => "PROCESSING_API"@,
        ProcessingStage::Transcribing => "TRANSCRIBING"@,
        ProcessingStage::SynthesizingVoice => "SYNTHESIZING_VOICE"@,
    }
}

pub open spec fn stage_message(s: ProcessingStage) -> Option<Seq<char>> {
    match s {
        ProcessingStage::ProcessingApi => Some("Processing request..."@),
        ProcessingStage::Transcribing => Some("Transcribing voice..."@),
        ProcessingStage::SynthesizingVoice => None,
    }
}

/// The notification sent when a stage begins.
pub struct ProcessingStageUpdatePayload {
    pub stage: String,
    pub message: Option<String>,
}

impl ProcessingStage {
    /// The label under which the user interface knows the stage.
    pub fn label(self) -> (r: String)
        ensures
            r@ == stage_label(self),
    {
        match self {
            ProcessingStage::ProcessingApi => String::from_str("PROCESSING_API"),
            ProcessingStage::Transcribing => String::from_str("TRANSCRIBING"),
            ProcessingStage::SynthesizingVoice => String::from_str("SYNTHESIZING_VOICE"),
        }
    }
}

/// The notification for the start of `stage`.
pub fn stage_update(stage: ProcessingStage) -> (r: ProcessingStageUpdatePayload)
    ensures
        r.stage@ == stage_label(stage),
        stage_message(stage) is None ==> r.message is None,
        stage_message(stage) matches Some(m) ==> (r.message matches Some(t) && t@ == m),
{
    proof {
        reveal_strlit("PROCESSING_API");
        reveal_strlit("TRANSCRIBING");
        reveal_strlit("SYNTHESIZING_VOICE");
        reveal_strlit("Processing request...");
        reveal_strlit("Transcribing voice...");
    }
    let message = match stage {
        ProcessingStage::ProcessingApi => Some(String::from_str("Processing request...")),
        ProcessingStage::Transcribing => Some(String::from_str("Transcribing voice...")),
        ProcessingStage::SynthesizingVoice => None,
    };
    ProcessingStageUpdatePayload { stage: stage.label(), message }
}

} // verus!
