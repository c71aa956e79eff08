//! The language model used for summarising release notes, and the prompt
//! that it is given.

use vstd::prelude::*;

verus! {

/// The language model used to summarise release notes.
#[derive(Clone, Copy, Debug, PartialEq, Eq, Structural)]
pub enum OpenAIModel {
    GPT3_5,
    GPT4,
}

/// The identifier of a model, as the chat API expects it.
pub open spec fn spec_model_id(model: OpenAIModel) -> Seq<char> {
    match model {
        OpenAIModel::GPT3_5 => "gpt-3.5-turbo"@,
        OpenAIModel::GPT4 => "gpt-4"@,
    }
}

impl OpenAIModel {
    /// Returns the identifier of the model, as the chat API expects it.
    pub fn model_id(&self) -> (r: String)
        ensures
            r@ == spec_model_id(*self),
    {
        match self {
            OpenAIModel::GPT3_5 => String::from_str("gpt-3.5-turbo"),
            OpenAIModel::GPT4 => String::from_str("gpt-4"),
        }
    }
}

/// The instructions that precede the release notes in the summary prompt.
pub open spec fn spec_prompt_head() -> Seq<char> {
    "Please provide a brief summary for the following release notes using bullet points.You do not need to mention the version or release data, only the changes.Please also just provide a description of the changes but don't mention the change types like State Machine Breaking.Please do not include any pull request links.Please keep the summary to a maximum of 10 bullet points.\n\""@
}

/// Builds the prompt that asks the language model for a summary of the
/// given release notes.
pub fn build_summary_prompt(release_notes: &str) -> (r: String)
    ensures
        r@ == spec_prompt_head() + release_notes@ + "\"}"@,
{
    let mut r = String::from_str(
        "Please provide a brief summary for the following release notes using bullet points.You do not need to mention the version or release data, only the changes.Please also just provide a description of the changes but don't mention the change types like State Machine Breaking.Please do not include any pull request links.Please keep the summary to a maximum of 10 bullet points.\n\"",
    );
    r.append(release_notes);
    r.append("\"}");
    r
}

} // verus!
