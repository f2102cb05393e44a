//! The events of a structured document, written flat in document order.
use vstd::prelude::*;

verus! {

/// One event of a structured (JSON-like) document. An object is written as
/// `ObjectStart`, then a `Key` and the value's events for each entry, then
/// `ObjectEnd`; a sequence as `SeqStart`, its elements, `SeqEnd`.
///
/// A `Number` holds the bit pattern of an IEEE-754 double.
#[derive(Debug, PartialEq, Eq)]
pub enum Token {
    ObjectStart,
    ObjectEnd,
    Key(String),
    Str(String),
    Number(u64),
    Int(i64),
    Bool(bool),
    SeqStart,
    SeqEnd,
}

/// What a [`Token`] is, with strings as character sequences.
pub enum TokenView {
    ObjectStart,
    ObjectEnd,
    Key(Seq<char>),
    Str(Seq<char>),
    Number(u64),
    Int(int),
    Bool(bool),
    SeqStart,
    SeqEnd,
}

impl View for Token {
    type V = TokenView;

    open spec fn view(&self) -> TokenView {
        match self {
            Token::ObjectStart => TokenView::ObjectStart,
            Token::ObjectEnd => TokenView::ObjectEnd,
            Token::Key(k) => TokenView::Key(k@),
            Token::Str(s) => TokenView::Str(s@),
            Token::Number(bits) => TokenView::Number(*bits),
            Token::Int(i) => TokenView::Int(*i as int),
            Token::Bool(b) => TokenView::Bool(*b),
            Token::SeqStart => TokenView::SeqStart,
            Token::SeqEnd => TokenView::SeqEnd,
        }
    }
}

/// The views of a sequence of tokens, in order.
pub open spec fn tokens_view(v: Seq<Token>) -> Seq<TokenView> {
    v.map_values(|t: Token| t@)
}

pub proof fn lemma_tokens_view_push(v: Seq<Token>, t: Token)
    ensures
        tokens_view(v.push(t)) == tokens_view(v).push(t@),
{
    assert(tokens_view(v.push(t)) =~= tokens_view(v).push(t@));
}

/// Appends one token to `out`.
pub fn push_token(out: &mut Vec<Token>, t: Token)
    ensures
        tokens_view(final(out)@) == tokens_view(old(out)@).push(t@),
{
    proof {
        lemma_tokens_view_push(old(out)@, t);
    }
    out.push(t);
}

} // verus!
