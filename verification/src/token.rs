//! The tokens of a declaration: what its arguments are read off, and what
//! decides whether a text can be handed to the parser.

use proc_macro2::{Spacing, TokenStream, TokenTree};
use vstd::prelude::*;
use vstd::string::*;
use vstd::utf8::encode_utf8;
use crate::error::{DeclError, DeclErrorSpec};
use crate::text::reads;

verus! {

/// The four kinds of token tree.
#[derive(Debug, Clone, Copy, PartialEq, Eq, Structural)]
pub enum TokenKind {
    /// A delimited group, brackets included.
    Group,
    /// An identifier or a keyword.
    Ident,
    /// One character of punctuation.
    Punct,
    /// A literal.
    Literal,
}

/// One token tree at the top level of a token stream.
#[derive(Debug, Clone, PartialEq, Eq)]
pub struct Token {
    pub kind: TokenKind,
    /// The token as it is written.
    pub text: String,
    /// Whether punctuation is followed at once by more punctuation, as the
    /// `-` of `->` is. `false` for the other kinds.
    pub joint: bool,
}

/// [`Token`] as contracts see it.
pub ghost struct TokenSpec {
    pub kind: TokenKind,
    pub text: Seq<char>,
    pub joint: bool,
}

impl View for Token {
    type V = TokenSpec;

    open spec fn view(&self) -> TokenSpec {
        TokenSpec { kind: self.kind, text: self.text@, joint: self.joint }
    }
}

impl DeepView for Token {
    type V = TokenSpec;

    open spec fn deep_view(&self) -> TokenSpec {
        self@
    }
}

/// What `text` lexes to: its token trees at the top level, or the lexer's
/// message where it is no token stream.
pub uninterp spec fn lexed(text: Seq<char>) -> Result<Seq<TokenSpec>, Seq<char>>;

/// Lexes `text` with `proc_macro2::TokenStream::from_str` and hands out the
/// top-level token trees in order, each with its kind, its own text and,
/// for punctuation, whether its spacing is `Joint`. The lexer's error comes
/// back as its message. Nothing is claimed but that the outcome depends on
/// `text` alone. Takes shallow text only: the text of a group is printed
/// by a call that nests as deep as the group's brackets.
#[verifier::external_body]
fn lex(text: &str) -> (r: Result<Vec<Token>, String>)
    requires
        shallow(text@),
    ensures
        match r {
            Ok(tokens) => lexed(text@) == Ok::<Seq<TokenSpec>, Seq<char>>(tokens.deep_view()),
            Err(message) => lexed(text@) == Err::<Seq<TokenSpec>, Seq<char>>(message@),
        },
{
    match text.parse::<TokenStream>() {
        Err(e) => Err(e.to_string()),
        Ok(stream) => Ok(stream.into_iter().map(|tree| match tree {
            TokenTree::Group(g) => Token { kind: TokenKind::Group, text: g.to_string(), joint: false },
            TokenTree::Ident(i) => Token { kind: TokenKind::Ident, text: i.to_string(), joint: false },
            TokenTree::Literal(l) => Token { kind: TokenKind::Literal, text: l.to_string(), joint: false },
            TokenTree::Punct(p) => Token {
                kind: TokenKind::Punct,
                text: p.as_char().to_string(),
                joint: match p.spacing() { Spacing::Joint => true, Spacing::Alone => false },
            },
        }).collect()),
    }
}

/// What stands between a token and the next: nothing after joint
/// punctuation, one space otherwise.
pub open spec fn gap(token: TokenSpec) -> Seq<char> {
    if token.joint {
        Seq::empty()
    } else {
        " "@
    }
}

/// The tokens written out in order, each parted from the next by its gap.
pub open spec fn spelled(tokens: Seq<TokenSpec>) -> Seq<char>
    decreases tokens.len(),
{
    if tokens.len() == 0 {
        Seq::empty()
    } else if tokens.len() == 1 {
        tokens[0].text
    } else {
        spelled(tokens.drop_last()) + gap(tokens[tokens.len() - 2]) + tokens.last().text
    }
}

/// Whether `token` is the word `word`.
pub open spec fn is_word(token: TokenSpec, word: Seq<char>) -> bool {
    token.kind == TokenKind::Ident && token.text == word
}

/// Whether `token` is the punctuation `mark`.
pub open spec fn is_mark(token: TokenSpec, mark: Seq<char>) -> bool {
    token.kind == TokenKind::Punct && token.text == mark
}

/// Whether the token at `at` is there and is the word `word`.
pub open spec fn word_at(tokens: Seq<TokenSpec>, at: int, word: Seq<char>) -> bool {
    0 <= at < tokens.len() && is_word(tokens[at], word)
}

/// Whether the token at `at` is there and is the punctuation `mark`.
pub open spec fn mark_at(tokens: Seq<TokenSpec>, at: int, mark: Seq<char>) -> bool {
    0 <= at < tokens.len() && is_mark(tokens[at], mark)
}

pub(crate) fn has_word(tokens: &Vec<Token>, at: usize, word: &str) -> (b: bool)
    ensures
        b == word_at(tokens.deep_view(), at as int, word@),
{
    if at < tokens.len() {
        assert(tokens.deep_view()[at as int] == tokens[at as int]@);
        tokens[at].kind == TokenKind::Ident && reads(&tokens[at].text, word)
    } else {
        false
    }
}

pub(crate) fn has_mark(tokens: &Vec<Token>, at: usize, mark: &str) -> (b: bool)
    ensures
        b == mark_at(tokens.deep_view(), at as int, mark@),
{
    if at < tokens.len() {
        assert(tokens.deep_view()[at as int] == tokens[at as int]@);
        tokens[at].kind == TokenKind::Punct && reads(&tokens[at].text, mark)
    } else {
        false
    }
}

/// How many opening brackets a text may hold. The lexer's and the
/// parser's own work on a text nests as deep as its brackets do, and the
/// brackets of a text are no more than its opening brackets.
pub const BRACKETS: usize = 1024;

/// How far the parser may be led into a text before it comes back: the
/// budget that [`fits`] is asked with.
pub const LIMIT: usize = 48;

/// Whether the byte is `(`, `[` or `{`. In UTF-8 these bytes stand for
/// these characters and for nothing else.
pub open spec fn opens(byte: u8) -> bool {
    byte == 0x28 || byte == 0x5b || byte == 0x7b
}

/// How many of the bytes are opening brackets.
pub open spec fn openers(bytes: Seq<u8>) -> nat
    decreases bytes.len(),
{
    if bytes.len() == 0 {
        0
    } else {
        openers(bytes.drop_last()) + if opens(bytes.last()) {
            1nat
        } else {
            0nat
        }
    }
}

/// Whether `text` holds few enough opening brackets, wherever they stand,
/// to be lexed and looked through: at most [`BRACKETS`].
pub open spec fn shallow(text: Seq<char>) -> bool {
    openers(encode_utf8(text)) <= BRACKETS
}

/// Tests whether `text` holds at most [`BRACKETS`] opening brackets.
pub fn is_shallow(text: &str) -> (b: bool)
    ensures
        b == shallow(text@),
{
    let bytes = text.as_bytes();
    let mut count: usize = 0;
    let mut i: usize = 0;
    while i < bytes.len()
        invariant
            i <= bytes.len(),
            count <= i,
            count == openers(bytes@.take(i as int)),
        decreases bytes.len() - i,
    {
        proof {
            assert(bytes@.take(i + 1).drop_last() =~= bytes@.take(i as int));
        }
        let byte = bytes[i];
        if byte == 0x28 || byte == 0x5b || byte == 0x7b {
            count = count + 1;
        }
        i = i + 1;
    }
    proof {
        assert(bytes@.take(bytes.len() as int) =~= bytes@);
    }
    count <= BRACKETS
}

/// Whether the parser can classify the literal `text`: whether it begins
/// as a string, a byte string, a byte, a character or a number does. What
/// the lexer takes for a literal and is none of these begins otherwise.
pub open spec fn classifiable(text: Seq<char>) -> bool {
    &&& text.len() > 0
    &&& (text[0] == '"' || text[0] == 'r' || text[0] == 'b' || text[0] == '\'' || is_digit(
        text[0],
    ))
}

/// Whether `c` is an ASCII digit.
pub open spec fn is_digit(c: char) -> bool {
    '0' as u32 <= c as u32 <= '9' as u32
}

/// Whether the token at `i` stands behind `#` or `#!`, as the brackets of
/// an attribute do.
pub open spec fn follows_pound(tokens: Seq<TokenSpec>, i: int) -> bool {
    ||| mark_at(tokens, i - 1, "#"@)
    ||| (mark_at(tokens, i - 1, "!"@) && mark_at(tokens, i - 2, "#"@))
}

/// Whether the token at `i` is the `>` of `->` or of `=>`, which closes
/// nothing.
pub open spec fn ends_arrow(tokens: Seq<TokenSpec>, i: int) -> bool {
    &&& 0 < i < tokens.len()
    &&& tokens[i - 1].joint
    &&& (is_mark(tokens[i - 1], "-"@) || is_mark(tokens[i - 1], "="@))
}

/// What stands between the brackets of the group `text`.
pub open spec fn inside(text: Seq<char>) -> Seq<char> {
    text.subrange(1, text.len() - 1)
}

/// How far into a run of tokens the parser may be when it stands at one of
/// them.
pub ghost struct Reach {
    /// The tokens since the parser last came back to where the run began.
    pub run: nat,
    /// The `<` that no `>` has closed yet.
    pub open: nat,
    /// Whether a `|` has been seen.
    pub bars: bool,
}

/// The reach behind the token at `i`, given the reach in front of it.
///
/// A token counts for one step further in. Four kinds do not: `#` and
/// the brackets of an attribute, which the parser passes in a loop; `:`,
/// which it never takes without the word or the sign that the colon
/// belongs to; and a `>` that closes a `<`, at which it comes back. At `,`
/// and at `;` the
/// parser has come back to where the run began, and the count begins
/// anew, unless a `<` is still open or a `|` has been seen: a list between
/// angle brackets and the parameters of a closure hold commas of their
/// own.
pub open spec fn advance(before: Reach, tokens: Seq<TokenSpec>, i: int) -> Reach {
    let token = tokens[i];
    if is_mark(token, "#"@) || is_mark(token, ":"@) || (token.kind == TokenKind::Group
        && follows_pound(tokens, i)) {
        before
    } else if (is_mark(token, ","@) || is_mark(token, ";"@)) && before.open == 0 && !before.bars {
        Reach { run: 0, open: 0, bars: false }
    } else if is_mark(token, ">"@) && !ends_arrow(tokens, i) && before.open > 0 {
        Reach { run: before.run, open: (before.open - 1) as nat, bars: before.bars }
    } else {
        Reach {
            run: before.run + 1,
            open: if is_mark(token, "<"@) {
                before.open + 1
            } else {
                before.open
            },
            bars: before.bars || is_mark(token, "|"@),
        }
    }
}

/// The reach behind the first `n` tokens.
pub open spec fn reach(tokens: Seq<TokenSpec>, n: int) -> Reach
    decreases n,
{
    if n <= 0 {
        Reach { run: 0, open: 0, bars: false }
    } else {
        advance(reach(tokens, n - 1), tokens, n - 1)
    }
}

/// Whether `text` can be handed to the parser with `budget` steps to go:
/// it holds few enough brackets, and it is no token stream, so that the
/// parser stops at once, or each of its tokens fits.
pub open spec fn fits(text: Seq<char>, budget: nat) -> bool
    decreases budget, 1nat,
{
    &&& shallow(text)
    &&& match lexed(text) {
        Err(_) => true,
        Ok(tokens) => forall|i: int|
            0 <= i < tokens.len() ==> token_fits(
                #[trigger] tokens[i],
                follows_pound(tokens, i),
                reach(tokens, i + 1),
                budget,
            ),
    }
}

/// Whether `token` fits, standing behind `#` or `#!` or not, with the
/// reach `at` behind it. The brackets of an attribute fit: the parser
/// keeps the tokens between them as they are. Elsewhere the reach must be
/// within the budget, a literal must be one that the parser can classify,
/// and what stands between brackets must fit into what is left of the
/// budget.
pub open spec fn token_fits(token: TokenSpec, behind_pound: bool, at: Reach, budget: nat) -> bool
    decreases budget, 0nat,
{
    if token.kind == TokenKind::Group && behind_pound {
        true
    } else {
        &&& at.run <= budget
        &&& token.kind == TokenKind::Literal ==> classifiable(token.text)
        &&& token.kind == TokenKind::Group ==> {
            &&& at.run >= 1
            &&& token.text.len() >= 2
            &&& fits(inside(token.text), (budget - at.run) as nat)
        }
    }
}

/// [`Reach`] as it is counted.
struct Tally {
    run: usize,
    open: usize,
    bars: bool,
}

impl Tally {
    spec fn reach(self) -> Reach {
        Reach { run: self.run as nat, open: self.open as nat, bars: self.bars }
    }
}

fn is_behind_pound(tokens: &Vec<Token>, i: usize) -> (b: bool)
    ensures
        b == follows_pound(tokens.deep_view(), i as int),
{
    if i >= 1 && has_mark(tokens, i - 1, "#") {
        true
    } else {
        i >= 2 && has_mark(tokens, i - 1, "!") && has_mark(tokens, i - 2, "#")
    }
}

fn is_end_of_arrow(tokens: &Vec<Token>, i: usize) -> (b: bool)
    ensures
        b == ends_arrow(tokens.deep_view(), i as int),
{
    if 0 < i && i < tokens.len() {
        assert(tokens.deep_view()[i - 1] == tokens[i - 1]@);
        tokens[i - 1].joint && (has_mark(tokens, i - 1, "-") || has_mark(tokens, i - 1, "="))
    } else {
        false
    }
}

fn advanced(before: Tally, tokens: &Vec<Token>, i: usize) -> (after: Tally)
    requires
        i < tokens.len(),
        before.run <= i,
        before.open <= i,
    ensures
        after.reach() == advance(before.reach(), tokens.deep_view(), i as int),
        after.run <= i + 1,
        after.open <= i + 1,
{
    proof {
        assert(tokens.deep_view()[i as int] == tokens[i as int]@);
    }
    let group = match tokens[i].kind {
        TokenKind::Group => true,
        _ => false,
    };
    if has_mark(tokens, i, "#") || has_mark(tokens, i, ":") || (group && is_behind_pound(
        tokens,
        i,
    )) {
        before
    } else if (has_mark(tokens, i, ",") || has_mark(tokens, i, ";")) && before.open == 0
        && !before.bars {
        Tally { run: 0, open: 0, bars: false }
    } else if has_mark(tokens, i, ">") && !is_end_of_arrow(tokens, i) && before.open > 0 {
        Tally { run: before.run, open: before.open - 1, bars: before.bars }
    } else {
        let open = if has_mark(tokens, i, "<") {
            before.open + 1
        } else {
            before.open
        };
        let bars = before.bars || has_mark(tokens, i, "|");
        Tally { run: before.run + 1, open, bars }
    }
}

fn is_classifiable(text: &String) -> (b: bool)
    ensures
        b == classifiable(text@),
{
    let word = text.as_str();
    if word.unicode_len() == 0 {
        return false;
    }
    let c = word.get_char(0);
    let code = c as u32;
    c == '"' || c == 'r' || c == 'b' || c == '\'' || ('0' as u32 <= code && code <= '9' as u32)
}

/// Tests whether `text` can be handed to the parser with `budget` steps to
/// go.
pub fn is_fit(text: &str, budget: usize) -> (b: bool)
    ensures
        b == fits(text@, budget as nat),
    decreases budget,
{
    if !is_shallow(text) {
        return false;
    }
    let tokens = match lex(text) {
        Ok(tokens) => tokens,
        Err(_) => { return true; },
    };
    let ghost all = tokens.deep_view();
    let mut at = Tally { run: 0, open: 0, bars: false };
    let mut i: usize = 0;
    while i < tokens.len()
        invariant
            i <= tokens.len(),
            all == tokens.deep_view(),
            shallow(text@),
            lexed(text@) == Ok::<Seq<TokenSpec>, Seq<char>>(all),
            at.reach() == reach(all, i as int),
            at.run <= i,
            at.open <= i,
            forall|j: int|
                0 <= j < i ==> token_fits(
                    #[trigger] all[j],
                    follows_pound(all, j),
                    reach(all, j + 1),
                    budget as nat,
                ),
        decreases tokens.len() - i,
    {
        proof {
            assert(all[i as int] == tokens[i as int]@);
        }
        at = advanced(at, &tokens, i);
        let ok = match tokens[i].kind {
            TokenKind::Group => {
                if is_behind_pound(&tokens, i) {
                    true
                } else if at.run > budget || at.run == 0 {
                    false
                } else {
                    let group = tokens[i].text.as_str();
                    let n = group.unicode_len();
                    if n < 2 {
                        false
                    } else {
                        is_fit(group.substring_char(1, n - 1), budget - at.run)
                    }
                }
            },
            TokenKind::Literal => at.run <= budget && is_classifiable(&tokens[i].text),
            _ => at.run <= budget,
        };
        if !ok {
            proof {
                let found = lexed(text@)->Ok_0;
                assert(found == all);
                assert(!token_fits(
                    found[i as int],
                    follows_pound(found, i as int),
                    reach(found, i + 1),
                    budget as nat,
                ));
            }
            return false;
        }
        i = i + 1;
    }
    true
}

/// Whether `text` can be handed to the parser as it is: whether it fits
/// into [`LIMIT`] steps.
pub open spec fn parsable(text: Seq<char>) -> bool {
    fits(text, LIMIT as nat)
}

/// Tests whether `text` can be handed to the parser as it is.
pub fn is_parsable(text: &str) -> (b: bool)
    ensures
        b == parsable(text@),
{
    is_fit(text, LIMIT)
}

/// What [`tokens_of`] gives: the token trees of `text`, the lexer's
/// message, or the refusal of a text with too many brackets.
pub open spec fn tokens_in(text: Seq<char>) -> Result<Seq<TokenSpec>, DeclErrorSpec> {
    if !shallow(text) {
        Err(DeclErrorSpec::Unsupported)
    } else {
        match lexed(text) {
            Ok(tokens) => Ok(tokens),
            Err(message) => Err(DeclErrorSpec::Syntax(message)),
        }
    }
}

/// The token trees of `text`.
pub fn tokens_of(text: &str) -> (r: Result<Vec<Token>, DeclError>)
    ensures
        match r {
            Ok(tokens) => tokens_in(text@) == Ok::<Seq<TokenSpec>, DeclErrorSpec>(
                tokens.deep_view(),
            ),
            Err(e) => tokens_in(text@) == Err::<Seq<TokenSpec>, DeclErrorSpec>(e@),
        },
{
    if !is_shallow(text) {
        return Err(DeclError::Unsupported);
    }
    match lex(text) {
        Ok(tokens) => Ok(tokens),
        Err(message) => Err(DeclError::Syntax(message)),
    }
}

/// What [`spell`] writes: the tokens from index `from` on, and nothing
/// where there are none.
pub open spec fn spelled_from(tokens: Seq<TokenSpec>, from: int) -> Seq<char> {
    if 0 <= from <= tokens.len() {
        spelled(tokens.skip(from))
    } else {
        Seq::empty()
    }
}

/// Writes out the tokens from index `from` on.
pub fn spell(tokens: &Vec<Token>, from: usize) -> (text: String)
    ensures
        text@ == spelled_from(tokens.deep_view(), from as int),
{
    let ghost all = tokens.deep_view();
    let mut text = String::new();
    if from > tokens.len() {
        return text;
    }
    let mut i: usize = from;
    while i < tokens.len()
        invariant
            from <= i <= tokens.len(),
            all == tokens.deep_view(),
            text@ == spelled(all.subrange(from as int, i as int)),
        decreases tokens.len() - i,
    {
        proof {
            assert(all.subrange(from as int, i + 1).drop_last() =~= all.subrange(
                from as int,
                i as int,
            ));
            assert(all[i as int] == tokens[i as int]@);
        }
        if i > from {
            proof {
                assert(all[i - 1] == tokens[i - 1]@);
            }
            if !tokens[i - 1].joint {
                text.append(" ");
            }
        }
        text.append(tokens[i].text.as_str());
        i = i + 1;
    }
    proof {
        assert(all.subrange(from as int, tokens.len() as int) =~= all.skip(from as int));
    }
    text
}

} // verus!
