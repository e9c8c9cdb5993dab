//! Tokenization data model and utilities.
//!
//! The tokenizer backend itself is an external collaborator; what lives
//! here is its configuration, the shape of its results, and the pure
//! operations on those results: truncation, padding, and byte counting.

use vstd::prelude::*;

verus! {

/// Tokenizer configuration.
#[derive(Debug, Clone)]
pub struct TokenizerConfig {
    /// Model name or path the tokenizer is loaded from.
    pub model: String,
    /// Maximum sequence length.
    pub max_length: Option<u32>,
    /// Padding token.
    pub pad_token: Option<String>,
    /// Unknown token.
    pub unk_token: Option<String>,
    /// Beginning-of-sequence token.
    pub bos_token: Option<String>,
    /// End-of-sequence token.
    pub eos_token: Option<String>,
    /// Whether to add special tokens.
    pub add_special_tokens: Option<bool>,
    /// Whether to cache encodings.
    pub enable_cache: Option<bool>,
}

impl Default for TokenizerConfig {
    /// Defaults: the `gpt2` tokenizer, length 2048, the conventional
    /// special tokens, caching on.
    fn default() -> (r: Self)
        ensures
            r.model@ == "gpt2"@,
            r.max_length == Some(2048u32),
            r.pad_token matches Some(p) && p@ == "<pad>"@,
            r.unk_token matches Some(p) && p@ == "<unk>"@,
            r.bos_token matches Some(p) && p@ == "<bos>"@,
            r.eos_token matches Some(p) && p@ == "<eos>"@,
            r.add_special_tokens == Some(true),
            r.enable_cache == Some(true),
    {
        TokenizerConfig {
            model: String::from_str("gpt2"),
            max_length: Some(2048),
            pad_token: Some(String::from_str("<pad>")),
            unk_token: Some(String::from_str("<unk>")),
            bos_token: Some(String::from_str("<bos>")),
            eos_token: Some(String::from_str("<eos>")),
            add_special_tokens: Some(true),
            enable_cache: Some(true),
        }
    }
}

/// Result of tokenizing one text.
#[derive(Debug, Clone)]
pub struct TokenizationResult {
    /// Token identifiers.
    pub ids: Vec<u32>,
    /// Token strings.
    pub tokens: Vec<String>,
    /// Attention mask, one entry per token.
    pub attention_mask: Vec<u32>,
    /// Special-token mask, one entry per token.
    pub special_tokens_mask: Vec<u32>,
    /// Character offsets, a start and end per token.
    pub offsets: Vec<(u32, u32)>,
}

/// Truncate a tokenization to at most `max_length` tokens: when the ids
/// exceed that length, every array is cut to it; otherwise nothing changes.
pub fn truncate_tokens(result: TokenizationResult, max_length: u32) -> (r: TokenizationResult)
    ensures
        ({
            let cut = result.ids@.len() > max_length;
            &&& r.ids@ == (if cut {
                result.ids@.take(max_length as int)
            } else {
                result.ids@
            })
            &&& r.tokens@ == (if cut && result.tokens@.len() > max_length {
                result.tokens@.take(max_length as int)
            } else {
                result.tokens@
            })
            &&& r.attention_mask@ == (if cut && result.attention_mask@.len() > max_length {
                result.attention_mask@.take(max_length as int)
            } else {
                result.attention_mask@
            })
            &&& r.special_tokens_mask@ == (if cut && result.special_tokens_mask@.len()
                > max_length {
                result.special_tokens_mask@.take(max_length as int)
            } else {
                result.special_tokens_mask@
            })
            &&& r.offsets@ == (if cut && result.offsets@.len() > max_length {
                result.offsets@.take(max_length as int)
            } else {
                result.offsets@
            })
        }),
{
    let mut result = result;
    let max_len = max_length as usize;
    if result.ids.len() > max_len {
        result.ids.truncate(max_len);
        result.tokens.truncate(max_len);
        result.attention_mask.truncate(max_len);
        result.special_tokens_mask.truncate(max_len);
        result.offsets.truncate(max_len);
    }
    result
}

/// Pad a tokenization up to `target_length` tokens with the given padding
/// id: the ids are padded with it, the token strings with `<pad>`, the
/// attention mask with zeroes, the special-token mask with ones, and the
/// offsets with empty spans. A result already long enough is unchanged.
pub fn pad_tokens(result: TokenizationResult, target_length: u32, pad_id: u32) -> (r:
    TokenizationResult)
    ensures
        result.ids@.len() >= target_length ==> r.ids@ == result.ids@ && r.tokens@
            == result.tokens@ && r.attention_mask@ == result.attention_mask@
            && r.special_tokens_mask@ == result.special_tokens_mask@ && r.offsets@
            == result.offsets@,
        result.ids@.len() < target_length ==> ({
            let pad = target_length - result.ids@.len();
            &&& r.ids@.len() == target_length
            &&& r.ids@.take(result.ids@.len() as int) == result.ids@
            &&& forall|i: int| result.ids@.len() <= i < target_length ==> (#[trigger] r.ids@[i])
                == pad_id
            &&& r.tokens@.len() == result.tokens@.len() + pad
            &&& r.tokens@.take(result.tokens@.len() as int) == result.tokens@
            &&& forall|i: int| result.tokens@.len() <= i < r.tokens@.len()
                ==> (#[trigger] r.tokens@[i])@ == "<pad>"@
            &&& r.attention_mask@.len() == result.attention_mask@.len() + pad
            &&& r.attention_mask@.take(result.attention_mask@.len() as int)
                == result.attention_mask@
            &&& forall|i: int| result.attention_mask@.len() <= i < r.attention_mask@.len()
                ==> (#[trigger] r.attention_mask@[i]) == 0
            &&& r.special_tokens_mask@.len() == result.special_tokens_mask@.len() + pad
            &&& r.special_tokens_mask@.take(result.special_tokens_mask@.len() as int)
                == result.special_tokens_mask@
            &&& forall|i: int| result.special_tokens_mask@.len() <= i
                < r.special_tokens_mask@.len() ==> (#[trigger] r.special_tokens_mask@[i]) == 1
            &&& r.offsets@.len() == result.offsets@.len() + pad
            &&& r.offsets@.take(result.offsets@.len() as int) == result.offsets@
            &&& forall|i: int| result.offsets@.len() <= i < r.offsets@.len()
                ==> (#[trigger] r.offsets@[i]) == (0u32, 0u32)
        }),
{
    let mut result = result;
    let target_len = target_length as usize;
    let current_len = result.ids.len();
    if current_len >= target_len {
        return result;
    }
    let ghost ids0 = result.ids@;
    let ghost tokens0 = result.tokens@;
    let ghost att0 = result.attention_mask@;
    let ghost special0 = result.special_tokens_mask@;
    let ghost offsets0 = result.offsets@;
    let padding = target_len - current_len;
    let mut k: usize = 0;
    while k < padding
        invariant
            k <= padding,
            result.ids@.len() == ids0.len() + k,
            forall|i: int| 0 <= i < ids0.len() ==> (#[trigger] result.ids@[i]) == ids0[i],
            forall|i: int| ids0.len() <= i < result.ids@.len() ==> (#[trigger] result.ids@[i])
                == pad_id,
            result.tokens@.len() == tokens0.len() + k,
            forall|i: int| 0 <= i < tokens0.len() ==> (#[trigger] result.tokens@[i])
                == tokens0[i],
            forall|i: int| tokens0.len() <= i < result.tokens@.len()
                ==> (#[trigger] result.tokens@[i])@ == "<pad>"@,
            result.attention_mask@.len() == att0.len() + k,
            forall|i: int| 0 <= i < att0.len() ==> (#[trigger] result.attention_mask@[i])
                == att0[i],
            forall|i: int| att0.len() <= i < result.attention_mask@.len()
                ==> (#[trigger] result.attention_mask@[i]) == 0,
            result.special_tokens_mask@.len() == special0.len() + k,
            forall|i: int| 0 <= i < special0.len()
                ==> (#[trigger] result.special_tokens_mask@[i]) == special0[i],
            forall|i: int| special0.len() <= i < result.special_tokens_mask@.len()
                ==> (#[trigger] result.special_tokens_mask@[i]) == 1,
            result.offsets@.len() == offsets0.len() + k,
            forall|i: int| 0 <= i < offsets0.len() ==> (#[trigger] result.offsets@[i])
                == offsets0[i],
            forall|i: int| offsets0.len() <= i < result.offsets@.len()
                ==> (#[trigger] result.offsets@[i]) == (0u32, 0u32),
        decreases padding - k,
    {
        result.ids.push(pad_id);
        result.tokens.push(String::from_str("<pad>"));
        result.attention_mask.push(0);
        result.special_tokens_mask.push(1);
        result.offsets.push((0, 0));
        k = k + 1;
    }
    proof {
        assert(result.ids@.take(ids0.len() as int) =~= ids0);
        assert(result.tokens@.take(tokens0.len() as int) =~= tokens0);
        assert(result.attention_mask@.take(att0.len() as int) =~= att0);
        assert(result.special_tokens_mask@.take(special0.len() as int) =~= special0);
        assert(result.offsets@.take(offsets0.len() as int) =~= offsets0);
    }
    result
}

/// How many bytes of the text equal the target byte.
pub open spec fn sp_count_byte(s: Seq<u8>, t: u8) -> nat
    decreases s.len(),
{
    if s.len() == 0 {
        0
    } else {
        sp_count_byte(s.drop_last(), t) + if s.last() == t {
            1nat
        } else {
            0nat
        }
    }
}

/// Count the occurrences of one byte value in a text.
pub fn count_chars_simd(text: &[u8], target: u8) -> (r: usize)
    ensures
        r == sp_count_byte(text@, target),
{
    let n = text.len();
    let mut count: usize = 0;
    let mut i: usize = 0;
    while i < n
        invariant
            i <= n,
            n == text@.len(),
            count <= i,
            count == sp_count_byte(text@.take(i as int), target),
        decreases n - i,
    {
        proof {
            assert(text@.take(i as int + 1).drop_last() =~= text@.take(i as int));
            assert(text@.take(i as int + 1).last() == text@[i as int]);
        }
        if text[i] == target {
            count = count + 1;
        }
        i = i + 1;
    }
    proof {
        assert(text@.take(n as int) =~= text@);
    }
    count
}

} // verus!
