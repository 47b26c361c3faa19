mod invoke;
mod options;

pub use invoke::evaluate;
pub use invoke::evaluate_string;
pub use invoke::evaluate_string_with_options;
pub use invoke::evaluate_with_options;
pub use invoke::invoke_compiler_on_path;
pub use invoke::invoke_compiler_on_string;
pub use invoke::classified_result;
pub use invoke::lossy_of;
pub use invoke::process_output;
pub use invoke::CompileError;
pub use invoke::CompilerOutcome;
pub use options::json_text_of;
pub use options::lemma_json_token_quoted;
pub use options::lemma_payload_follows_obj;
pub use options::lemma_tokens_deterministic;
pub use options::payload_token;
pub use options::token_seq;
pub use options::PugJsonObject;
pub use options::PugOptions;
