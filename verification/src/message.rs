//! Chat messages, the text that stands for them, and what that text is taken to cost.

use vstd::prelude::*;

verus! {

/// One piece of a message.
#[derive(Debug)]
pub enum Content {
    /// Plain text.
    Text(String),
    /// Anything else: tool calls and their results, reasoning, media, documents.
    Other,
}

/// A chat message.
#[derive(Debug)]
pub enum Message {
    /// System message containing instruction text.
    System {
        /// The instruction.
        content: String,
    },
    /// User message of one or more pieces.
    User {
        /// The pieces in order.
        content: Vec<Content>,
    },
    /// Assistant message of one or more pieces.
    Assistant {
        /// The pieces in order.
        content: Vec<Content>,
    },
}

impl Message {
    /// The text that stands for the message: the instruction of a system message, otherwise the
    /// first piece of plain text, if there is one.
    pub open spec fn text(self) -> Seq<char> {
        match self {
            Message::System { content } => content@,
            Message::User { content } => first_text(content@),
            Message::Assistant { content } => first_text(content@),
        }
    }
}

/// The first piece of plain text, or no text where there is none.
pub open spec fn first_text(pieces: Seq<Content>) -> Seq<char>
    decreases pieces.len(),
{
    if pieces.len() == 0 {
        seq![]
    } else {
        match pieces[0] {
            Content::Text(text) => text@,
            Content::Other => first_text(pieces.drop_first()),
        }
    }
}

/// The tokens that a text is taken to cost: one for every four bytes, and at least one.
pub open spec fn token_estimate(text: Seq<char>) -> nat {
    let quarters = vstd::utf8::encode_utf8(text).len() / 4;
    if quarters >= 1 {
        quarters
    } else {
        1
    }
}

/// Extract text from a Message for preview purposes.
pub fn extract_text(message: &Message) -> (text: String)
    ensures
        text@ == message.text(),
{
    match message {
        Message::System { content } => content.clone(),
        Message::User { content } => find_text(content),
        Message::Assistant { content } => find_text(content),
    }
}

/// The first piece of plain text, or an empty string.
fn find_text(pieces: &Vec<Content>) -> (text: String)
    ensures
        text@ == first_text(pieces@),
{
    let mut i: usize = 0;
    assert(pieces@.skip(0) =~= pieces@);
    while i < pieces.len()
        invariant
            i <= pieces@.len(),
            first_text(pieces@) == first_text(pieces@.skip(i as int)),
        decreases pieces@.len() - i,
    {
        assert(pieces@.skip(i as int)[0] == pieces@[i as int]);
        assert(pieces@.skip(i as int).drop_first() =~= pieces@.skip(i + 1));
        if let Content::Text(text) = &pieces[i] {
            return text.clone();
        }
        i = i + 1;
    }
    String::new()
}

/// Estimate what a text costs in tokens: a quarter of its length in bytes, at least one.
pub fn estimate_tokens(text: &str) -> (tokens: u64)
    ensures
        tokens == token_estimate(text@),
        tokens <= u64::MAX / 4,
{
    let quarters = text.as_bytes().len() / 4;
    if quarters >= 1 {
        quarters as u64
    } else {
        1
    }
}

/// The text of a message is that of its first plain piece, whatever other pieces stand around it.
pub proof fn law_first_text_is_found(before: Seq<Content>, text: String, after: Seq<Content>)
    requires
        forall|i: int| 0 <= i < before.len() ==> #[trigger] before[i] is Other,
    ensures
        first_text(before) == Seq::<char>::empty(),
        first_text(before + seq![Content::Text(text)] + after) == text@,
    decreases before.len(),
{
    let whole = before + seq![Content::Text(text)] + after;
    if before.len() > 0 {
        law_first_text_is_found(before.drop_first(), text, after);
        assert(whole[0] == before[0]);
        assert(whole.drop_first() =~= before.drop_first() + seq![Content::Text(text)] + after);
    } else {
        assert(whole[0] == Content::Text(text));
    }
}

/// Every text costs at least one token.
pub proof fn law_every_text_costs(text: Seq<char>)
    ensures
        token_estimate(text) >= 1,
        4 * token_estimate(text) <= vstd::math::max(
            vstd::utf8::encode_utf8(text).len() as int,
            4,
        ),
{
}

/// A system message speaks its instruction. A user message and an assistant message speak the plain
/// text at any place that only other pieces stand before, and nothing where all pieces are others.
pub proof fn law_messages_speak_their_first_text(
    instruction: String,
    content: Vec<Content>,
    place: int,
)
    ensures
        (Message::System { content: instruction }).text() == instruction@,
        0 <= place < content@.len() && content@[place] is Text && (forall|i: int|
            0 <= i < place ==> #[trigger] content@[i] is Other) ==> (Message::User {
            content,
        }).text() == content@[place]->Text_0@,
        0 <= place < content@.len() && content@[place] is Text && (forall|i: int|
            0 <= i < place ==> #[trigger] content@[i] is Other) ==> (Message::Assistant {
            content,
        }).text() == content@[place]->Text_0@,
        (forall|i: int| 0 <= i < content@.len() ==> #[trigger] content@[i] is Other) ==> (
        Message::User { content }).text().len() == 0,
        (forall|i: int| 0 <= i < content@.len() ==> #[trigger] content@[i] is Other) ==> (
        Message::Assistant { content }).text().len() == 0,
{
    let pieces = content@;
    if 0 <= place < pieces.len() && pieces[place] is Text && (forall|i: int|
        0 <= i < place ==> #[trigger] pieces[i] is Other) {
        let text = pieces[place]->Text_0;
        law_first_text_is_found(pieces.take(place), text, pieces.skip(place + 1));
        assert(pieces =~= pieces.take(place) + seq![Content::Text(text)] + pieces.skip(place + 1));
    }
    if forall|i: int| 0 <= i < pieces.len() ==> #[trigger] pieces[i] is Other {
        law_first_text_is_found(pieces, instruction, seq![]);
    }
}

/// The estimate is a quarter of the length in bytes, rounded down, and one for texts of less than
/// four bytes.
pub proof fn law_tokens_are_quarters_of_the_bytes(text: Seq<char>)
    ensures
        vstd::utf8::encode_utf8(text).len() >= 4 ==> 4 * token_estimate(text)
            <= vstd::utf8::encode_utf8(text).len() < 4 * (token_estimate(text) + 1),
        vstd::utf8::encode_utf8(text).len() < 4 ==> token_estimate(text) == 1,
{
}

} // verus!
