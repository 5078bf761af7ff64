//! The address of the gateway.
use crate::constants::GATEWAY_VERSION;
use crate::error::ClientError;
use crate::error::Error;
use url::ParseError;
use url::Url;
use vstd::prelude::*;
use vstd::string::StringExecFns;

verus! {

#[verifier::external_type_specification]
#[verifier::external_body]
pub struct ExUrl(Url);

#[verifier::external_type_specification]
#[verifier::external_body]
pub struct ExParseError(ParseError);

/// What the URL parser makes of `text`: the URL it reads there, or the
/// reason why it reads none.
pub uninterp spec fn url_parse_of(text: Seq<char>) -> Result<Url, ParseError>;

/// `Url::parse`: parses `text` as an absolute URL. The outcome depends on
/// `text` alone.
#[verifier::external_body]
fn parse_url(text: &str) -> (parsed: Result<Url, ParseError>)
    ensures
        parsed == url_parse_of(text@),
{
    Url::parse(text)
}

/// The character that stands for the digit `d`.
pub open spec fn digit_char(d: nat) -> char {
    (('0' as nat) + d) as char
}

/// `n` written in decimal, without leading zeros.
pub open spec fn decimal(n: nat) -> Seq<char>
    decreases n,
{
    if n < 10 {
        seq![digit_char(n)]
    } else {
        decimal(n / 10).push(digit_char(n % 10))
    }
}

/// The text of the gateway's address: `base` with the protocol version as
/// its query.
pub open spec fn gateway_url_text_spec(base: Seq<char>) -> Seq<char> {
    base + "?v="@ + decimal(GATEWAY_VERSION as nat)
}

/// The address, or the error that stands for any text the parser rejects.
pub open spec fn gateway_url_of(parsed: Result<Url, ParseError>) -> Result<Url, Error> {
    match parsed {
        Ok(address) => Ok(address),
        Err(_) => Err(Error::Client(ClientError::Gateway)),
    }
}

fn digit_str(d: u8) -> (text: &'static str)
    requires
        d < 10,
    ensures
        text@ == seq![digit_char(d as nat)],
{
    proof {
        reveal_strlit("0");
        reveal_strlit("1");
        reveal_strlit("2");
        reveal_strlit("3");
        reveal_strlit("4");
        reveal_strlit("5");
        reveal_strlit("6");
        reveal_strlit("7");
        reveal_strlit("8");
        reveal_strlit("9");
    }
    match d {
        0 => "0",
        1 => "1",
        2 => "2",
        3 => "3",
        4 => "4",
        5 => "5",
        6 => "6",
        7 => "7",
        8 => "8",
        _ => "9",
    }
}

/// Appends `n` in decimal to `text`.
pub fn append_decimal(text: &mut String, n: u8)
    ensures
        final(text)@ == old(text)@ + decimal(n as nat),
{
    if n >= 100 {
        text.append(digit_str(n / 100));
        text.append(digit_str(n / 10 % 10));
        text.append(digit_str(n % 10));
        assert(decimal((n / 10) as nat) == decimal((n / 100) as nat).push(
            digit_char((n / 10 % 10) as nat),
        ));
    } else if n >= 10 {
        text.append(digit_str(n / 10));
        text.append(digit_str(n % 10));
        assert(decimal(n as nat) == decimal((n / 10) as nat).push(digit_char((n % 10) as nat)));
    } else {
        text.append(digit_str(n));
    }
}

/// Writes the text of the gateway's address for the base address `base`.
pub fn gateway_url_text(base: &str) -> (text: String)
    ensures
        text@ == gateway_url_text_spec(base@),
{
    let mut text = String::from_str(base);
    text.append("?v=");
    append_decimal(&mut text, GATEWAY_VERSION);
    text
}

/// Turns the parser's verdict on an address into the crate's own result:
/// the URL where there is one, and `ClientError::Gateway` for every reason
/// the parser may give.
pub fn gateway_url_from(parsed: Result<Url, ParseError>) -> (r: Result<Url, Error>)
    ensures
        r == gateway_url_of(parsed),
{
    match parsed {
        Ok(address) => Ok(address),
        Err(_) => Err(Error::Client(ClientError::Gateway)),
    }
}

/// Builds the URL of the gateway from its base address by adding the
/// protocol version as the query. Fails with `ClientError::Gateway` exactly
/// when the resulting text is no absolute URL.
pub fn build_gateway_url(base: &str) -> (r: Result<Url, Error>)
    ensures
        r == gateway_url_of(url_parse_of(gateway_url_text_spec(base@))),
{
    let text = gateway_url_text(base);
    gateway_url_from(parse_url(text.as_str()))
}

/// With the protocol version this crate speaks, the query reads `?v=6`.
pub proof fn lemma_gateway_url_text(base: Seq<char>)
    ensures
        gateway_url_text_spec(base) == base + seq!['?', 'v', '=', '6'],
{
    reveal_strlit("?v=");
}

} // verus!
