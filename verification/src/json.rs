//! Unwrapping of JSON strings that hold JSON strings.

use vstd::prelude::*;
use vstd::string::*;

verus! {

/// What decoding a text as JSON gives, as far as unwrapping looks at it.
#[derive(Debug, PartialEq, Eq)]
pub enum Decoded {
    /// The text is not JSON.
    Invalid,
    /// The text is JSON, but not a string: a number, an object, an array, a
    /// boolean or null.
    Other,
    /// The text is a JSON string with this content.
    Text(String),
}

/// The mathematical value of a [`Decoded`].
pub enum DecodedView {
    Invalid,
    Other,
    Text(Seq<char>),
}

impl View for Decoded {
    type V = DecodedView;

    open spec fn view(&self) -> DecodedView {
        match self {
            Decoded::Invalid => DecodedView::Invalid,
            Decoded::Other => DecodedView::Other,
            Decoded::Text(content) => DecodedView::Text(content@),
        }
    }
}

/// The result of `serde_json::from_str::<serde_json::Value>` on `text`,
/// reduced to the three cases of [`DecodedView`].
pub uninterp spec fn json_decode(text: Seq<char>) -> DecodedView;

/// Decodes `text` with `serde_json::from_str::<serde_json::Value>`.
///
/// Trusted: the result is the decoder's verdict on `text`, and a decoded
/// string has fewer characters than the text it came from. The second holds
/// because a JSON string literal spends two characters on its quotes and
/// at least one on every character of its content.
#[verifier::external_body]
fn decode(text: &str) -> (decoded: Decoded)
    ensures
        decoded@ == json_decode(text@),
        decoded matches Decoded::Text(content) ==> content@.len() < text@.len(),
{
    match serde_json::from_str::<serde_json::Value>(text) {
        Ok(serde_json::Value::String(content)) => Decoded::Text(content),
        Ok(_) => Decoded::Other,
        Err(_) => Decoded::Invalid,
    }
}

/// Whether `text` is a JSON string, so that one more layer can come off.
pub open spec fn is_wrapped(text: Seq<char>) -> bool {
    json_decode(text) is Text
}

/// What is left of `text` after `layers` layers of JSON string encoding have
/// been taken off, if it has that many.
pub open spec fn peeled(text: Seq<char>, layers: nat) -> Option<Seq<char>>
    decreases layers,
{
    if layers == 0 {
        Some(text)
    } else {
        match json_decode(text) {
            DecodedView::Text(content) => peeled(content, (layers - 1) as nat),
            _ => None,
        }
    }
}

/// `text` is `inner` under exactly `layers` layers of JSON string encoding:
/// taking off `layers` layers gives `inner`, and `inner` is not a JSON string.
pub open spec fn unwraps_to(text: Seq<char>, layers: nat, inner: Seq<char>) -> bool {
    peeled(text, layers) == Some(inner) && !is_wrapped(inner)
}

/// Taking `layers` layers off `text` is possible and ends at a text that is
/// not a JSON string.
pub open spec fn bottoms_out(text: Seq<char>, layers: nat) -> bool {
    peeled(text, layers) matches Some(inner) && !is_wrapped(inner)
}

/// `text` has an innermost content: some number of layers leads to a text
/// that is not a JSON string.
pub open spec fn has_innermost(text: Seq<char>) -> bool {
    exists|layers: nat| bottoms_out(text, layers)
}

/// The number of layers of JSON string encoding around the innermost content
/// of `text`.
pub open spec fn depth(text: Seq<char>) -> nat {
    choose|layers: nat| bottoms_out(text, layers)
}

/// The innermost content of `text`: what is left when every layer of JSON
/// string encoding has been taken off.
pub open spec fn innermost(text: Seq<char>) -> Seq<char> {
    peeled(text, depth(text))->Some_0
}

/// Taking one more layer off what `layers` layers left is taking `layers + 1`
/// layers off.
pub proof fn lemma_peel_one_more(text: Seq<char>, layers: nat, content: Seq<char>)
    requires
        peeled(text, layers) is Some,
        json_decode(peeled(text, layers)->Some_0) == DecodedView::Text(content),
    ensures
        peeled(text, layers + 1) == Some(content),
    decreases layers,
{
    reveal_with_fuel(peeled, 2);
    if layers > 0 {
        let below = json_decode(text)->Text_0;
        lemma_peel_one_more(below, (layers - 1) as nat, content);
    }
}

/// A text unwraps in one way only: the number of layers and the innermost
/// content are determined by the text.
pub proof fn lemma_unwrap_unique(
    text: Seq<char>,
    layers_a: nat,
    inner_a: Seq<char>,
    layers_b: nat,
    inner_b: Seq<char>,
)
    requires
        unwraps_to(text, layers_a, inner_a),
        unwraps_to(text, layers_b, inner_b),
    ensures
        layers_a == layers_b,
        inner_a == inner_b,
    decreases layers_a,
{
    if layers_a > 0 && layers_b > 0 {
        let below = json_decode(text)->Text_0;
        lemma_unwrap_unique(
            below,
            (layers_a - 1) as nat,
            inner_a,
            (layers_b - 1) as nat,
            inner_b,
        );
    }
}

/// Whoever knows one way in which a text unwraps knows its depth and its
/// innermost content.
pub proof fn lemma_unwrap_determines(text: Seq<char>, layers: nat, inner: Seq<char>)
    requires
        unwraps_to(text, layers, inner),
    ensures
        has_innermost(text),
        depth(text) == layers,
        innermost(text) == inner,
{
    assert(bottoms_out(text, layers));
    let found = depth(text);
    lemma_unwrap_unique(text, layers, inner, found, peeled(text, found)->Some_0);
}

/// A text with an innermost content is wrapped in strings as deep as its
/// depth says: taking off fewer layers leaves a JSON string, and taking off
/// as many leaves the innermost content, which is none.
pub proof fn lemma_layers_are_strings(text: Seq<char>, layers: nat, fewer: nat)
    requires
        peeled(text, layers) is Some,
        fewer < layers,
    ensures
        peeled(text, fewer) matches Some(between) && is_wrapped(between),
    decreases fewer,
{
    if fewer > 0 {
        let below = json_decode(text)->Text_0;
        lemma_layers_are_strings(below, (layers - 1) as nat, (fewer - 1) as nat);
    }
}

/// Encoding once is undone: where `encoded` is a JSON string with the content
/// `content`, and `content` is no JSON string itself, the innermost content of
/// `encoded` is `content`, one layer down.
pub proof fn lemma_encoded_once(encoded: Seq<char>, content: Seq<char>)
    requires
        json_decode(encoded) == DecodedView::Text(content),
        !is_wrapped(content),
    ensures
        has_innermost(encoded),
        depth(encoded) == 1,
        innermost(encoded) == content,
{
    reveal_with_fuel(peeled, 2);
    lemma_unwrap_determines(encoded, 1, content);
}

/// Unwrapping counts the layers. Where `raw` is `inner` under `layers`
/// layers, `layers` decodings of `raw` give a string each, the one after
/// them does not, and what they lead to is `inner`: the depth of `raw` is
/// `layers` and its innermost content is `inner`.
pub proof fn lemma_layers_counted(raw: Seq<char>, layers: nat, inner: Seq<char>)
    requires
        layers >= 1,
        unwraps_to(raw, layers, inner),
    ensures
        has_innermost(raw),
        depth(raw) == layers,
        innermost(raw) == inner,
        forall|fewer: nat|
            fewer < layers ==> (#[trigger] peeled(raw, fewer) matches Some(between) && is_wrapped(
                between,
            )),
        !is_wrapped(inner),
{
    lemma_unwrap_determines(raw, layers, inner);
    assert forall|fewer: nat| fewer < layers implies (#[trigger] peeled(raw, fewer) matches Some(
        between,
    ) && is_wrapped(between)) by {
        lemma_layers_are_strings(raw, layers, fewer);
    }
}

/// Unwrapping what has been unwrapped. An innermost content is no JSON
/// string, so it is either not JSON at all, and cannot be unwrapped again, or
/// it is JSON of another kind, and unwrapping it again gives it back with no
/// layer taken off.
pub proof fn lemma_unwrapped_again(raw: Seq<char>)
    requires
        has_innermost(raw),
    ensures
        !is_wrapped(innermost(raw)),
        has_innermost(innermost(raw)),
        depth(innermost(raw)) == 0,
        innermost(innermost(raw)) == innermost(raw),
{
    let layers = choose|layers: nat| bottoms_out(raw, layers);
    lemma_unwrap_determines(raw, layers, peeled(raw, layers)->Some_0);
    lemma_unwrap_determines(innermost(raw), 0, innermost(raw));
}

/// A text freed of every layer of JSON string encoding around it.
#[derive(Debug, PartialEq, Eq)]
pub struct Unwrapped {
    /// The innermost content.
    pub value: String,
    /// How many layers were taken off: the number of decodings that gave a
    /// string. One more decoding, the last, did not.
    pub layers: usize,
}

/// What one decoding means for the unwrapping.
#[derive(Debug, PartialEq, Eq)]
pub enum Step {
    /// The text that was given is not JSON.
    Malformed,
    /// The unwrapping has reached the innermost content.
    Done(Unwrapped),
    /// One more layer has come off, and this is what it held.
    Again(String),
}

/// Decides how the unwrapping goes on, when `layers` layers have been taken
/// off, `current` is what they left and `decoded` is what decoding `current`
/// gave. A string means one more round, with its content. Anything else ends
/// the unwrapping at `current`, with one exception: where not even the first
/// decoding gave JSON, there is nothing to return.
pub fn advance(current: String, decoded: Decoded, layers: usize) -> (step: Step)
    ensures
        match decoded {
            Decoded::Text(content) => step matches Step::Again(next) && next@ == content@,
            Decoded::Other => step matches Step::Done(done) && done.value@ == current@
                && done.layers == layers,
            Decoded::Invalid => if layers == 0 {
                step is Malformed
            } else {
                step matches Step::Done(done) && done.value@ == current@ && done.layers == layers
            },
        },
{
    match decoded {
        Decoded::Text(content) => Step::Again(content),
        Decoded::Other => Step::Done(Unwrapped { value: current, layers }),
        Decoded::Invalid => if layers == 0 {
            Step::Malformed
        } else {
            Step::Done(Unwrapped { value: current, layers })
        },
    }
}

/// Decodes `raw` as JSON for as long as the decoded value is a string, and
/// returns the content of the last string with the number of strings that
/// were decoded; where `raw` is JSON but no string, that is `raw` itself and
/// 0. `None` means that `raw` is not JSON at all.
pub fn normalize(raw: &str) -> (unwrapped: Option<Unwrapped>)
    ensures
        unwrapped is None <==> json_decode(raw@) is Invalid,
        unwrapped matches Some(done) ==> {
            &&& has_innermost(raw@)
            &&& unwraps_to(raw@, done.layers as nat, done.value@)
            &&& done.value@ == innermost(raw@)
            &&& done.layers == depth(raw@)
        },
{
    // Every layer is at least one character shorter than the one around it,
    // so there are fewer layers than `raw` has characters: the count fits.
    let length = raw.unicode_len();
    let mut current = raw.to_owned();
    let mut layers: usize = 0;
    loop
        invariant
            length == raw@.len(),
            layers + current@.len() <= length,
            peeled(raw@, layers as nat) == Some(current@),
            layers == 0 ==> current@ == raw@,
        decreases current@.len(),
    {
        let decoded = decode(current.as_str());
        proof {
            if decoded is Text {
                lemma_peel_one_more(raw@, layers as nat, decoded->Text_0@);
            } else {
                lemma_unwrap_determines(raw@, layers as nat, current@);
            }
        }
        match advance(current, decoded, layers) {
            Step::Malformed => {
                return None;
            },
            Step::Done(done) => {
                return Some(done);
            },
            Step::Again(content) => {
                current = content;
                layers = layers + 1;
            },
        }
    }
}

} // verus!
