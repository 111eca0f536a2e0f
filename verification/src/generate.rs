//! The request to generate code from a contract: its defaults, the
//! prompt, and the decisions around the generator.

use crate::extract::{lines, lines_of};
use crate::text::{chars_of, contains, contains_vec, join_texts, joined, texts_view};
use crate::toolkit::Context;
use vstd::prelude::*;

verus! {

/// A request to generate code.
#[derive(Debug, Clone)]
pub struct GenerateInput {
    pub contract_path: String,
    pub task: String,
    pub language: String,
    pub context: Context,
    pub feedback: String,
    pub attempt: String,
    pub output_path: String,
    pub model: String,
    pub dry_run: bool,
}

/// The answer to a request.
#[derive(Debug, Clone, PartialEq, Eq)]
pub struct GenerateOutput {
    pub generated: bool,
    pub output_path: String,
    pub language: String,
    pub was_dry_run: bool,
}

/// The path of the generated file for a run with the given identifier.
pub open spec fn output_path_of(id: Seq<char>) -> Seq<char> {
    "/tmp/generated_"@ + id + ".rs"@
}

/// The prompt for the generator.
pub open spec fn prompt_text(
    language: Seq<char>,
    task: Seq<char>,
    contract: Seq<char>,
    feedback: Seq<char>,
    attempt: Seq<char>,
) -> Seq<char> {
    "You are a "@ + language + " code generator. Output ONLY valid "@ + language
        + " code, never explanations.\n\nTASK: "@ + task
        + "\n\nCONTRACT (your output must produce data matching this schema):\n"@ + contract
        + "\n\nFEEDBACK FROM PREVIOUS ATTEMPT: "@ + feedback + "\nATTEMPT: "@ + attempt
        + "\n\nREQUIREMENTS:\n- Output must match the contract schema exactly\n- Return success/error appropriately\n- Output valid, runnable code\n\nGenerate the complete "@
        + language + " code for the task.\nOUTPUT ONLY THE CODE:"@
}

/// The stub that a dry run writes in place of generated code.
pub open spec fn stub_text(language: Seq<char>) -> Seq<char> {
    "// Dry-run stub for "@ + language + "\nfn main() {\n    println!(\"dry-run\");\n}\n"@
}

/// The field that a request lacks: the contract first.
pub open spec fn missing_field(contract_path: Seq<char>, task: Seq<char>) -> Option<Seq<char>> {
    if contract_path.len() == 0 {
        Some("contract_path is required"@)
    } else if task.len() == 0 {
        Some("task is required"@)
    } else {
        None
    }
}

/// A line of the generator's list of models holds the model's name.
pub open spec fn is_listed(listing: Seq<char>, model: Seq<char>) -> bool {
    exists|i: int| 0 <= i < lines(listing).len() && contains(#[trigger] lines(listing)[i], model)
}

/// The complaint about a model that is not listed.
pub open spec fn unlisted_text(listing: Seq<char>, model: Seq<char>) -> Seq<char> {
    "Model '"@ + model + "' not available. Available: "@ + joined(lines(listing), ", "@)
}

/// The feedback of a first attempt.
pub fn default_feedback() -> (r: String)
    ensures
        r@ == "Initial generation"@,
{
    String::from_str("Initial generation")
}

/// The first of five attempts.
pub fn default_attempt() -> (r: String)
    ensures
        r@ == "1/5"@,
{
    String::from_str("1/5")
}

/// The path of the generated file for a run with the given identifier.
pub fn output_path_for(id: &str) -> (r: String)
    ensures
        r@ == output_path_of(id@),
{
    let mut out = String::from_str("/tmp/generated_");
    out.append(id);
    out.append(".rs");
    out
}

/// The prompt for the generator: the language, the task, the contract,
/// and what the previous attempt was told.
pub fn build_prompt(input: &GenerateInput, contract: &str) -> (r: String)
    ensures
        r@ == prompt_text(
            input.language@,
            input.task@,
            contract@,
            input.feedback@,
            input.attempt@,
        ),
{
    let language = input.language.as_str();
    let mut out = String::from_str("You are a ");
    out.append(language);
    out.append(" code generator. Output ONLY valid ");
    out.append(language);
    out.append(" code, never explanations.\n\nTASK: ");
    out.append(input.task.as_str());
    out.append("\n\nCONTRACT (your output must produce data matching this schema):\n");
    out.append(contract);
    out.append("\n\nFEEDBACK FROM PREVIOUS ATTEMPT: ");
    out.append(input.feedback.as_str());
    out.append("\nATTEMPT: ");
    out.append(input.attempt.as_str());
    out.append(
        "\n\nREQUIREMENTS:\n- Output must match the contract schema exactly\n- Return success/error appropriately\n- Output valid, runnable code\n\nGenerate the complete ",
    );
    out.append(language);
    out.append(" code for the task.\nOUTPUT ONLY THE CODE:");
    out
}

/// The stub that a dry run writes in place of generated code.
pub fn dry_run_stub(language: &str) -> (r: String)
    ensures
        r@ == stub_text(language@),
{
    let mut out = String::from_str("// Dry-run stub for ");
    out.append(language);
    out.append("\nfn main() {\n    println!(\"dry-run\");\n}\n");
    out
}

/// Names the field that a request lacks.
pub fn required_field_error(input: &GenerateInput) -> (r: Option<&'static str>)
    ensures
        match r {
            Some(text) => missing_field(input.contract_path@, input.task@) == Some(text@),
            None => missing_field(input.contract_path@, input.task@) is None,
        },
{
    if chars_of(input.contract_path.as_str()).len() == 0 {
        Some("contract_path is required")
    } else if chars_of(input.task.as_str()).len() == 0 {
        Some("task is required")
    } else {
        None
    }
}

/// A run is dry where the request or its context says so.
pub fn wants_dry_run(input: &GenerateInput) -> (b: bool)
    ensures
        b == (input.dry_run || input.context.dry_run),
{
    input.dry_run || input.context.dry_run
}

/// Whether a line of the generator's list of models holds the name.
pub fn model_listed(listing: &str, model: &str) -> (b: bool)
    ensures
        b == is_listed(listing@, model@),
{
    let names = lines_of(listing);
    let wanted = chars_of(model);
    let mut i: usize = 0;
    while i < names.len()
        invariant
            i <= names.len(),
            texts_view(names@) == lines(listing@),
            wanted@ == model@,
            forall|j: int| 0 <= j < i ==> !contains(#[trigger] lines(listing@)[j], model@),
        decreases names.len() - i,
    {
        assert(texts_view(names@)[i as int] == names@[i as int]@);
        let line = chars_of(names[i].as_str());
        if contains_vec(&line, &wanted) {
            return true;
        }
        i += 1;
    }
    false
}

/// The complaint about a model that is not listed.
pub fn unlisted_model_message(listing: &str, model: &str) -> (r: String)
    ensures
        r@ == unlisted_text(listing@, model@),
{
    let names = lines_of(listing);
    let list = join_texts(&names, ", ");
    let mut out = String::from_str("Model '");
    out.append(model);
    out.append("' not available. Available: ");
    out.append(list.as_str());
    out
}

/// The answer to a request that was served.
pub fn generated_output(input: &GenerateInput, was_dry_run: bool) -> (r: GenerateOutput)
    ensures
        r.generated,
        r.output_path@ == input.output_path@,
        r.language@ == input.language@,
        r.was_dry_run == was_dry_run,
{
    GenerateOutput {
        generated: true,
        output_path: input.output_path.clone(),
        language: input.language.clone(),
        was_dry_run,
    }
}

} // verus!
