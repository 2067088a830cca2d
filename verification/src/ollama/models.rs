//! What the inference server's API speaks of: models, and the requests and
//! responses of its endpoints.

use crate::text::{
    decimal_digits, field_end, field_len, render_decimal, render_two_decimals, rounded_quotient,
    scaled_quotient, to_chars, two_decimals,
};
use vstd::prelude::*;
use vstd::string::{StrSliceExecFns, StringExecFns};

verus! {

/// A model that the server holds.
#[derive(Debug, Clone)]
pub struct OllamaModel {
    pub name: String,
    pub modified_at: String,
    pub size: u64,
    pub digest: String,
    pub details: ModelDetails,
}

#[derive(Debug, Clone)]
pub struct ModelDetails {
    pub format: String,
    pub family: String,
    pub families: Vec<String>,
    pub parameter_size: String,
    pub quantization_level: String,
}

impl Default for ModelDetails {
    fn default() -> (details: Self)
        ensures
            details.format@.len() == 0,
            details.family@.len() == 0,
            details.families@.len() == 0,
            details.parameter_size@.len() == 0,
            details.quantization_level@.len() == 0,
    {
        ModelDetails {
            format: String::new(),
            family: String::new(),
            families: Vec::new(),
            parameter_size: String::new(),
            quantization_level: String::new(),
        }
    }
}

/// Response of the endpoint that lists the models.
#[derive(Debug, Clone)]
pub struct ModelListResponse {
    pub models: Vec<OllamaModel>,
}

/// Response of the endpoint that generates text.
#[derive(Debug, Clone)]
pub struct GenerateResponse {
    pub model: String,
    pub created_at: String,
    pub response: String,
    pub done: bool,
    pub context: Vec<i32>,
    pub total_duration: Option<u64>,
    pub load_duration: Option<u64>,
    pub prompt_eval_count: Option<u32>,
    pub prompt_eval_duration: Option<u64>,
    pub eval_count: Option<u32>,
    pub eval_duration: Option<u64>,
}

/// Request of the endpoint that pulls a model.
#[derive(Debug, Clone)]
pub struct PullRequest {
    pub name: String,
    pub stream: Option<bool>,
}

/// Response of the endpoint that pulls a model.
#[derive(Debug, Clone)]
pub struct PullResponse {
    pub status: String,
    pub digest: Option<String>,
    pub total: Option<u64>,
    pub completed: Option<u64>,
}

/// Request of the endpoint that deletes a model.
#[derive(Debug, Clone)]
pub struct DeleteRequest {
    pub name: String,
}

/// Response of the endpoint that lists the running models.
#[derive(Debug, Clone)]
pub struct ProcessListResponse {
    pub models: Vec<RunningModel>,
}

#[derive(Debug, Clone)]
pub struct RunningModel {
    pub name: String,
    pub model: String,
    pub size: u64,
    pub digest: String,
    pub details: ModelDetails,
    pub expires_at: String,
    pub size_vram: u64,
}

/// Request of the endpoint that shows a model.
#[derive(Debug, Clone)]
pub struct ShowRequest {
    pub name: String,
}

/// Response of the endpoint that shows a model.
#[derive(Debug, Clone)]
pub struct ShowResponse {
    pub license: String,
    pub modelfile: String,
    pub parameters: String,
    pub template: String,
    pub details: ModelDetails,
}

/// The number of bytes of a KB, as sizes are shown.
pub const KB: u64 = 1024;

/// The number of bytes of an MB.
pub const MB: u64 = 1048576;

/// The number of bytes of a GB.
pub const GB: u64 = 1073741824;

/// `size / unit` in hundredths, rounded to the nearest; a tie goes to the
/// even hundredth.
pub open spec fn hundredths(size: nat, unit: nat) -> nat
    recommends
        unit > 0,
{
    rounded_quotient(size * 100, unit)
}

/// A size in bytes as shown to the user: whole bytes below one KB, else
/// with two decimals in the largest of KB, MB and GB that it reaches.
pub open spec fn human_size(size: u64) -> Seq<char> {
    if size < KB {
        decimal_digits(size as nat) + " B"@
    } else if size < MB {
        two_decimals(hundredths(size as nat, KB as nat)) + " KB"@
    } else if size < GB {
        two_decimals(hundredths(size as nat, MB as nat)) + " MB"@
    } else {
        two_decimals(hundredths(size as nat, GB as nat)) + " GB"@
    }
}

/// The part of a model's name before its first colon.
pub open spec fn short_name_of(name: Seq<char>) -> Seq<char> {
    name.take(field_len(name, ':') as int)
}

/// The part of a model's name between its first colon and its second (or
/// its end); `latest` for a name without a colon.
pub open spec fn tag_of(name: Seq<char>) -> Seq<char> {
    let colon = field_len(name, ':') as int;
    if colon >= name.len() {
        "latest"@
    } else {
        let rest = name.skip(colon + 1);
        rest.take(field_len(rest, ':') as int)
    }
}

fn scaled_hundredths(size: u64, unit: u64) -> (count: u64)
    requires
        unit >= KB,
    ensures
        count == hundredths(size as nat, unit as nat),
{
    scaled_quotient(size, 100, unit)
}

impl OllamaModel {
    /// The model's size as shown to the user.
    pub fn size_human_readable(&self) -> (text: String)
        ensures
            text@ == human_size(self.size),
    {
        let size = self.size;
        if size < KB {
            render_decimal(size).concat(" B")
        } else if size < MB {
            render_two_decimals(scaled_hundredths(size, KB)).concat(" KB")
        } else if size < GB {
            render_two_decimals(scaled_hundredths(size, MB)).concat(" MB")
        } else {
            render_two_decimals(scaled_hundredths(size, GB)).concat(" GB")
        }
    }

    /// The name without its tag.
    pub fn short_name(&self) -> (short: &str)
        ensures
            short@ == short_name_of(self.name@),
    {
        let chars = to_chars(self.name.as_str());
        assert(chars@.skip(0) =~= chars@);
        let colon = field_end(&chars, 0, ':');
        let short = self.name.as_str().substring_char(0, colon);
        assert(short@ =~= short_name_of(self.name@));
        short
    }

    /// The tag: the part of the name after the colon.
    pub fn tag(&self) -> (tag: &str)
        ensures
            tag@ == tag_of(self.name@),
    {
        let chars = to_chars(self.name.as_str());
        assert(chars@.skip(0) =~= chars@);
        let colon = field_end(&chars, 0, ':');
        if colon >= chars.len() {
            return "latest";
        }
        let end = field_end(&chars, colon + 1, ':');
        let tag = self.name.as_str().substring_char(colon + 1, end);
        assert(tag@ =~= tag_of(self.name@));
        tag
    }
}

} // verus!
