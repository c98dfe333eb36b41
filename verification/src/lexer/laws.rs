//! What holds of the token grammar on every source text.
use crate::lexer::rules::{
    char_at, chars_left, decimal_value, in_class, is_digit, is_space, is_word_char,
    is_word_start, next_lexeme, span_len, tokens_from, tokens_of, word_token, Class, Lexeme,
    Scan,
};
use crate::lexer::token::TokenView;
use crate::text::{decimal, decimal_signed};
use vstd::prelude::*;

verus! {

/// A numeral is worth at least as much as any of its prefixes.
pub proof fn decimal_value_grows(digits: Seq<char>, k: int)
    requires
        0 <= k <= digits.len(),
        forall|j: int| 0 <= j < digits.len() ==> is_digit(#[trigger] digits[j]),
    ensures
        decimal_value(digits.take(k)) <= decimal_value(digits),
    decreases digits.len() - k,
{
    if k == digits.len() {
        assert(digits.take(k) =~= digits);
    } else {
        decimal_value_grows(digits, k + 1);
        assert(digits.take(k + 1).drop_last() =~= digits.take(k));
    }
}

/// A run of a class goes exactly as far as its characters belong to the
/// class: up to `to`, where the source ends or a character of another class
/// stands.
pub proof fn span_ends_where_the_class_ends(s: Seq<char>, from: int, to: int, class: Class)
    requires
        0 <= from <= to <= s.len(),
        forall|k: int| from <= k < to ==> in_class(class, #[trigger] s[k]),
        to < s.len() ==> !in_class(class, s[to]),
    ensures
        span_len(s, from, class) == to - from,
    decreases to - from,
{
    if from < to {
        span_ends_where_the_class_ends(s, from + 1, to, class);
    }
}

/// Where every character from `from` to the end belongs to `class`, the run
/// of the class that starts at `from` reaches the end.
pub proof fn span_reaches_the_end(s: Seq<char>, from: int, class: Class)
    requires
        0 <= from <= s.len(),
        forall|k: int| from <= k < s.len() ==> in_class(class, #[trigger] s[k]),
    ensures
        span_len(s, from, class) == s.len() - from,
{
    span_ends_where_the_class_ends(s, from, s.len() as int, class);
}

/// A source that is one lexeme for a token from its first character to its
/// last has that token, and no other.
pub proof fn one_lexeme_is_one_token(s: Seq<char>, token: TokenView)
    requires
        s.len() > 0,
        next_lexeme(s, 0) == (Scan { lexeme: Lexeme::Found(token), length: s.len() }),
    ensures
        tokens_of(s) == Ok::<Seq<TokenView>, int>(seq![token]),
{
    assert(tokens_from(s, s.len() as int, seq![token]) == Ok::<Seq<TokenView>, int>(seq![token]));
}

/// Every character of a run belongs to the class of the run.
pub proof fn span_stays_in_the_class(s: Seq<char>, from: int, class: Class)
    requires
        0 <= from <= s.len(),
    ensures
        from + span_len(s, from, class) <= s.len(),
        forall|k: int|
            from <= k < from + span_len(s, from, class) ==> in_class(class, #[trigger] s[k]),
        from + span_len(s, from, class) < s.len() ==> !in_class(
            class,
            s[from + span_len(s, from, class)],
        ),
    decreases s.len() - from,
{
    if from < s.len() && in_class(class, s[from]) {
        span_stays_in_the_class(s, from + 1, class);
    }
}

/// Whether `s` is spelled as a word: a letter or an underscore, then letters,
/// digits and underscores.
pub open spec fn is_word(s: Seq<char>) -> bool {
    &&& s.len() > 0
    &&& is_word_start(s[0])
    &&& forall|k: int| 0 <= k < s.len() ==> is_word_char(#[trigger] s[k])
}

/// A source that is one word has one token: the keyword spelled so, or the
/// name.
pub proof fn a_word_is_one_token(s: Seq<char>)
    requires
        is_word(s),
    ensures
        tokens_of(s) == Ok::<Seq<TokenView>, int>(seq![word_token(s)]),
{
    span_reaches_the_end(s, 1, Class::Word);
    assert(s.subrange(0, s.len() as int) =~= s);
    one_lexeme_is_one_token(s, word_token(s));
}

/// How long each keyword is and how it begins: enough to tell any two of
/// them apart.
proof fn keywords_differ()
    ensures
        "heart"@.len() == 5 && "heart"@[0] == 'h',
        "forever"@.len() == 7 && "forever"@[0] == 'f' && "forever"@[1] == 'o',
        "devotion"@.len() == 8 && "devotion"@[0] == 'd',
        "crush"@.len() == 5 && "crush"@[0] == 'c',
        "butterflies"@.len() == 11 && "butterflies"@[0] == 'b',
        "lonely"@.len() == 6 && "lonely"@[0] == 'l',
        "dating"@.len() == 6 && "dating"@[0] == 'd',
        "promise"@.len() == 7 && "promise"@[0] == 'p',
        "whisper"@.len() == 7 && "whisper"@[0] == 'w',
        "relationship"@.len() == 12 && "relationship"@[0] == 'r',
        "number"@.len() == 6 && "number"@[0] == 'n',
        "text"@.len() == 4 && "text"@[0] == 't',
        "feeling"@.len() == 7 && "feeling"@[0] == 'f' && "feeling"@[1] == 'e',
        "yes"@.len() == 3 && "yes"@[0] == 'y',
        "no"@.len() == 2 && "no"@[0] == 'n',
        "cuddle"@.len() == 6 && "cuddle"@[0] == 'c',
        "breakup"@.len() == 7 && "breakup"@[0] == 'b',
        "kiss"@.len() == 4 && "kiss"@[0] == 'k',
        "split"@.len() == 5 && "split"@[0] == 's',
        "match"@.len() == 5 && "match"@[0] == 'm',
        "soulmate"@.len() == 8 && "soulmate"@[0] == 's',
        "not"@.len() == 3 && "not"@[0] == 'n',
        "and"@.len() == 3 && "and"@[0] == 'a',
        "or"@.len() == 2 && "or"@[0] == 'o',
        "admires"@.len() == 7 && "admires"@[0] == 'a',
        "adores"@.len() == 6 && "adores"@[0] == 'a',
        "envies"@.len() == 6 && "envies"@[0] == 'e',
        "yearns"@.len() == 6 && "yearns"@[0] == 'y',
        "heartbreak"@.len() == 10 && "heartbreak"@[0] == 'h',
{
    reveal_strlit("heart");
    reveal_strlit("forever");
    reveal_strlit("devotion");
    reveal_strlit("crush");
    reveal_strlit("butterflies");
    reveal_strlit("lonely");
    reveal_strlit("dating");
    reveal_strlit("promise");
    reveal_strlit("whisper");
    reveal_strlit("relationship");
    reveal_strlit("number");
    reveal_strlit("text");
    reveal_strlit("feeling");
    reveal_strlit("yes");
    reveal_strlit("no");
    reveal_strlit("cuddle");
    reveal_strlit("breakup");
    reveal_strlit("kiss");
    reveal_strlit("split");
    reveal_strlit("match");
    reveal_strlit("soulmate");
    reveal_strlit("not");
    reveal_strlit("and");
    reveal_strlit("or");
    reveal_strlit("admires");
    reveal_strlit("adores");
    reveal_strlit("envies");
    reveal_strlit("yearns");
    reveal_strlit("heartbreak");
}

proof fn spelling_of_heart()
    ensures
        is_word("heart"@),
        word_token("heart"@) == TokenView::Heart,
{
    reveal_strlit("heart");
    keywords_differ();
}

proof fn spelling_of_forever()
    ensures
        is_word("forever"@),
        word_token("forever"@) == TokenView::Forever,
{
    reveal_strlit("forever");
    keywords_differ();
}

proof fn spelling_of_devotion()
    ensures
        is_word("devotion"@),
        word_token("devotion"@) == TokenView::Devotion,
{
    reveal_strlit("devotion");
    keywords_differ();
}

proof fn spelling_of_crush()
    ensures
        is_word("crush"@),
        word_token("crush"@) == TokenView::Crush,
{
    reveal_strlit("crush");
    keywords_differ();
}

proof fn spelling_of_butterflies()
    ensures
        is_word("butterflies"@),
        word_token("butterflies"@) == TokenView::Butterflies,
{
    reveal_strlit("butterflies");
    keywords_differ();
}

proof fn spelling_of_lonely()
    ensures
        is_word("lonely"@),
        word_token("lonely"@) == TokenView::Lonely,
{
    reveal_strlit("lonely");
    keywords_differ();
}

proof fn spelling_of_dating()
    ensures
        is_word("dating"@),
        word_token("dating"@) == TokenView::Dating,
{
    reveal_strlit("dating");
    keywords_differ();
}

proof fn spelling_of_promise()
    ensures
        is_word("promise"@),
        word_token("promise"@) == TokenView::Promise,
{
    reveal_strlit("promise");
    keywords_differ();
}

proof fn spelling_of_whisper()
    ensures
        is_word("whisper"@),
        word_token("whisper"@) == TokenView::Whisper,
{
    reveal_strlit("whisper");
    keywords_differ();
}

proof fn spelling_of_relationship()
    ensures
        is_word("relationship"@),
        word_token("relationship"@) == TokenView::Relationship,
{
    reveal_strlit("relationship");
    keywords_differ();
}

proof fn spelling_of_typenumber()
    ensures
        is_word("number"@),
        word_token("number"@) == TokenView::TypeNumber,
{
    reveal_strlit("number");
    keywords_differ();
}

proof fn spelling_of_typetext()
    ensures
        is_word("text"@),
        word_token("text"@) == TokenView::TypeText,
{
    reveal_strlit("text");
    keywords_differ();
}

proof fn spelling_of_typefeeling()
    ensures
        is_word("feeling"@),
        word_token("feeling"@) == TokenView::TypeFeeling,
{
    reveal_strlit("feeling");
    keywords_differ();
}

proof fn spelling_of_yes()
    ensures
        is_word("yes"@),
        word_token("yes"@) == TokenView::Yes,
{
    reveal_strlit("yes");
    keywords_differ();
}

proof fn spelling_of_no()
    ensures
        is_word("no"@),
        word_token("no"@) == TokenView::No,
{
    reveal_strlit("no");
    keywords_differ();
}

proof fn spelling_of_cuddle()
    ensures
        is_word("cuddle"@),
        word_token("cuddle"@) == TokenView::Cuddle,
{
    reveal_strlit("cuddle");
    keywords_differ();
}

proof fn spelling_of_breakup()
    ensures
        is_word("breakup"@),
        word_token("breakup"@) == TokenView::Breakup,
{
    reveal_strlit("breakup");
    keywords_differ();
}

proof fn spelling_of_kiss()
    ensures
        is_word("kiss"@),
        word_token("kiss"@) == TokenView::Kiss,
{
    reveal_strlit("kiss");
    keywords_differ();
}

proof fn spelling_of_split()
    ensures
        is_word("split"@),
        word_token("split"@) == TokenView::Split,
{
    reveal_strlit("split");
    keywords_differ();
}

proof fn spelling_of_match()
    ensures
        is_word("match"@),
        word_token("match"@) == TokenView::Match,
{
    reveal_strlit("match");
    keywords_differ();
}

proof fn spelling_of_soulmate()
    ensures
        is_word("soulmate"@),
        word_token("soulmate"@) == TokenView::Soulmate,
{
    reveal_strlit("soulmate");
    keywords_differ();
}

proof fn spelling_of_not()
    ensures
        is_word("not"@),
        word_token("not"@) == TokenView::Not,
{
    reveal_strlit("not");
    keywords_differ();
}

proof fn spelling_of_and()
    ensures
        is_word("and"@),
        word_token("and"@) == TokenView::And,
{
    reveal_strlit("and");
    keywords_differ();
}

proof fn spelling_of_or()
    ensures
        is_word("or"@),
        word_token("or"@) == TokenView::Or,
{
    reveal_strlit("or");
    keywords_differ();
}

proof fn spelling_of_greaterthan()
    ensures
        is_word("admires"@),
        word_token("admires"@) == TokenView::GreaterThan,
{
    reveal_strlit("admires");
    keywords_differ();
}

proof fn spelling_of_greaterthanequal()
    ensures
        is_word("adores"@),
        word_token("adores"@) == TokenView::GreaterThanEqual,
{
    reveal_strlit("adores");
    keywords_differ();
}

proof fn spelling_of_lessthan()
    ensures
        is_word("envies"@),
        word_token("envies"@) == TokenView::LessThan,
{
    reveal_strlit("envies");
    keywords_differ();
}

proof fn spelling_of_lessthanequal()
    ensures
        is_word("yearns"@),
        word_token("yearns"@) == TokenView::LessThanEqual,
{
    reveal_strlit("yearns");
    keywords_differ();
}

proof fn spelling_of_notequal()
    ensures
        is_word("heartbreak"@),
        word_token("heartbreak"@) == TokenView::NotEqual,
{
    reveal_strlit("heartbreak");
    keywords_differ();
}

/// The decimal numeral of a number is made of digits, at least one, and
/// writes that number.
pub proof fn decimal_is_a_numeral(n: nat)
    ensures
        decimal(n).len() >= 1,
        forall|k: int| 0 <= k < decimal(n).len() ==> is_digit(#[trigger] decimal(n)[k]),
        decimal_value(decimal(n)) == n,
    decreases n,
{
    if n < 10 {
        assert(decimal_value(decimal(n).drop_last()) == 0);
    } else {
        decimal_is_a_numeral(n / 10);
        assert(decimal(n).drop_last() =~= decimal(n / 10));
    }
}

/// Scanning the numeral of an integer gives the number token of that
/// integer.
pub proof fn a_numeral_is_one_token(n: i64)
    ensures
        tokens_of(decimal_signed(n as int)) == Ok::<Seq<TokenView>, int>(
            seq![TokenView::Number(n)],
        ),
{
    let s = decimal_signed(n as int);
    if n >= 0 {
        decimal_is_a_numeral(n as nat);
        span_reaches_the_end(s, 1, Class::Digit);
        assert(s.subrange(0, s.len() as int) =~= s);
        one_lexeme_is_one_token(s, TokenView::Number(n));
    } else {
        let digits = decimal((-n) as nat);
        decimal_is_a_numeral((-n) as nat);
        span_reaches_the_end(s, 2, Class::Digit);
        assert(s.subrange(1, s.len() as int) =~= digits);
        one_lexeme_is_one_token(s, TokenView::Number(n));
    }
}

/// Scanning a text between quotes gives the text token, provided the text
/// holds no quote itself.
pub proof fn a_quoted_text_is_one_token(text: Seq<char>)
    requires
        forall|k: int| 0 <= k < text.len() ==> #[trigger] text[k] != '"',
    ensures
        tokens_of(seq!['"'] + text + seq!['"']) == Ok::<Seq<TokenView>, int>(
            seq![TokenView::Text(text)],
        ),
{
    let s = seq!['"'] + text + seq!['"'];
    span_ends_where_the_class_ends(s, 1, text.len() as int + 1, Class::Quoted);
    assert(s.subrange(1, 1 + text.len() as int) =~= text);
    one_lexeme_is_one_token(s, TokenView::Text(text));
}

/// Whether the scanner can give `token`: every token but the error token, a
/// text only without a quote in it, a name only where it is spelled as a word
/// that is no keyword.
pub open spec fn can_be_scanned(token: TokenView) -> bool {
    match token {
        TokenView::Error => false,
        TokenView::Text(text) => forall|k: int| 0 <= k < text.len() ==> #[trigger] text[k] != '"',
        TokenView::Identifier(name) => is_word(name) && word_token(name) == token,
        _ => true,
    }
}

/// What [`TokenView::display`] writes, the scanner reads back: scanning the
/// rendering of a token that the scanner can give yields that token and no
/// other.
pub proof fn display_of_any_token_is_read_back(token: TokenView)
    requires
        can_be_scanned(token),
    ensures
        tokens_of(token.display()) == Ok::<Seq<TokenView>, int>(seq![token]),
{
    match token {
        TokenView::Number(n) => {
            a_numeral_is_one_token(n);
        },
        TokenView::Text(text) => {
            a_quoted_text_is_one_token(text);
        },
        TokenView::Identifier(name) => {
            a_word_is_one_token(name);
        },
        _ => {
            display_is_read_back(token);
        },
    }
}

/// A token that the scanner finds is one that it can give: never the error
/// token, a text without a quote in it, a name that is spelled as a word and
/// is no keyword.
pub proof fn found_tokens_can_be_scanned(s: Seq<char>, i: int)
    requires
        0 <= i < s.len(),
        next_lexeme(s, i).lexeme is Found,
    ensures
        can_be_scanned(next_lexeme(s, i).lexeme->Found_0),
{
    if is_word_start(s[i]) {
        span_stays_in_the_class(s, i + 1, Class::Word);
        let word = s.subrange(i, i + next_lexeme(s, i).length);
        assert(is_word(word));
    } else if s[i] == '"' {
        span_stays_in_the_class(s, i + 1, Class::Quoted);
        let text = s.subrange(i + 1, i + 1 + span_len(s, i + 1, Class::Quoted));
        assert(forall|k: int| 0 <= k < text.len() ==> #[trigger] text[k] != '"');
    }
}

/// Where the tokens in `seen` can all be given by the scanner, so can all the
/// tokens that come out of the rest of the scan.
pub proof fn scanned_tokens_can_be_scanned_from(s: Seq<char>, i: int, seen: Seq<TokenView>)
    requires
        forall|k: int| 0 <= k < seen.len() ==> can_be_scanned(#[trigger] seen[k]),
        tokens_from(s, i, seen) is Ok,
    ensures
        forall|k: int|
            0 <= k < tokens_from(s, i, seen)->Ok_0.len() ==> can_be_scanned(
                #[trigger] tokens_from(s, i, seen)->Ok_0[k],
            ),
    decreases chars_left(s, i),
{
    if 0 <= i < s.len() {
        let scan = next_lexeme(s, i);
        match scan.lexeme {
            Lexeme::Skip => {
                scanned_tokens_can_be_scanned_from(s, i + scan.length, seen);
            },
            Lexeme::Found(t) => {
                found_tokens_can_be_scanned(s, i);
                scanned_tokens_can_be_scanned_from(s, i + scan.length, seen.push(t));
            },
            Lexeme::Invalid => {},
        }
    }
}

/// Every token that a scan gives is one that the scanner can give: the error
/// token never comes out, and scanning what [`TokenView::display`] writes for
/// any token of the result gives that token back.
pub proof fn scanned_tokens_are_read_back(s: Seq<char>)
    requires
        tokens_of(s) is Ok,
    ensures
        forall|k: int|
            0 <= k < tokens_of(s)->Ok_0.len() ==> {
                let token = #[trigger] tokens_of(s)->Ok_0[k];
                &&& token != TokenView::Error
                &&& tokens_of(token.display()) == Ok::<Seq<TokenView>, int>(seq![token])
            },
{
    scanned_tokens_can_be_scanned_from(s, 0, Seq::empty());
    assert forall|k: int| 0 <= k < tokens_of(s)->Ok_0.len() implies {
        let token = #[trigger] tokens_of(s)->Ok_0[k];
        &&& token != TokenView::Error
        &&& tokens_of(token.display()) == Ok::<Seq<TokenView>, int>(seq![token])
    } by {
        display_of_any_token_is_read_back(tokens_of(s)->Ok_0[k]);
    }
}

/// Scanning the spelling of a keyword, an operator or a punctuation mark
/// gives that token and no other.
pub proof fn display_is_read_back(token: TokenView)
    requires
        !token.has_payload(),
        token != TokenView::Error,
    ensures
        tokens_of(token.display()) == Ok::<Seq<TokenView>, int>(seq![token]),
{
    match token {
        TokenView::Heart => {
            spelling_of_heart();
            a_word_is_one_token("heart"@);
        },
        TokenView::Forever => {
            spelling_of_forever();
            a_word_is_one_token("forever"@);
        },
        TokenView::Devotion => {
            spelling_of_devotion();
            a_word_is_one_token("devotion"@);
        },
        TokenView::Crush => {
            spelling_of_crush();
            a_word_is_one_token("crush"@);
        },
        TokenView::Butterflies => {
            spelling_of_butterflies();
            a_word_is_one_token("butterflies"@);
        },
        TokenView::Lonely => {
            spelling_of_lonely();
            a_word_is_one_token("lonely"@);
        },
        TokenView::Dating => {
            spelling_of_dating();
            a_word_is_one_token("dating"@);
        },
        TokenView::Promise => {
            spelling_of_promise();
            a_word_is_one_token("promise"@);
        },
        TokenView::Whisper => {
            spelling_of_whisper();
            a_word_is_one_token("whisper"@);
        },
        TokenView::Relationship => {
            spelling_of_relationship();
            a_word_is_one_token("relationship"@);
        },
        TokenView::TypeNumber => {
            spelling_of_typenumber();
            a_word_is_one_token("number"@);
        },
        TokenView::TypeText => {
            spelling_of_typetext();
            a_word_is_one_token("text"@);
        },
        TokenView::TypeFeeling => {
            spelling_of_typefeeling();
            a_word_is_one_token("feeling"@);
        },
        TokenView::Yes => {
            spelling_of_yes();
            a_word_is_one_token("yes"@);
        },
        TokenView::No => {
            spelling_of_no();
            a_word_is_one_token("no"@);
        },
        TokenView::Cuddle => {
            spelling_of_cuddle();
            a_word_is_one_token("cuddle"@);
        },
        TokenView::Breakup => {
            spelling_of_breakup();
            a_word_is_one_token("breakup"@);
        },
        TokenView::Kiss => {
            spelling_of_kiss();
            a_word_is_one_token("kiss"@);
        },
        TokenView::Split => {
            spelling_of_split();
            a_word_is_one_token("split"@);
        },
        TokenView::Match => {
            spelling_of_match();
            a_word_is_one_token("match"@);
        },
        TokenView::Soulmate => {
            spelling_of_soulmate();
            a_word_is_one_token("soulmate"@);
        },
        TokenView::Not => {
            spelling_of_not();
            a_word_is_one_token("not"@);
        },
        TokenView::And => {
            spelling_of_and();
            a_word_is_one_token("and"@);
        },
        TokenView::Or => {
            spelling_of_or();
            a_word_is_one_token("or"@);
        },
        TokenView::GreaterThan => {
            spelling_of_greaterthan();
            a_word_is_one_token("admires"@);
        },
        TokenView::GreaterThanEqual => {
            spelling_of_greaterthanequal();
            a_word_is_one_token("adores"@);
        },
        TokenView::LessThan => {
            spelling_of_lessthan();
            a_word_is_one_token("envies"@);
        },
        TokenView::LessThanEqual => {
            spelling_of_lessthanequal();
            a_word_is_one_token("yearns"@);
        },
        TokenView::NotEqual => {
            spelling_of_notequal();
            a_word_is_one_token("heartbreak"@);
        },
        TokenView::LParen => {
            reveal_strlit("(");
            one_lexeme_is_one_token("("@, token);
        },
        TokenView::RParen => {
            reveal_strlit(")");
            one_lexeme_is_one_token(")"@, token);
        },
        TokenView::LBrace => {
            reveal_strlit("{");
            one_lexeme_is_one_token("{"@, token);
        },
        TokenView::RBrace => {
            reveal_strlit("}");
            one_lexeme_is_one_token("}"@, token);
        },
        TokenView::Semicolon => {
            reveal_strlit(";");
            one_lexeme_is_one_token(";"@, token);
        },
        TokenView::Comma => {
            reveal_strlit(",");
            one_lexeme_is_one_token(","@, token);
        },
        TokenView::Colon => {
            reveal_strlit(":");
            one_lexeme_is_one_token(":"@, token);
        },
        TokenView::Arrow => {
            reveal_strlit("->");
            one_lexeme_is_one_token("->"@, token);
        },
        _ => {},
    }
}

} // verus!
