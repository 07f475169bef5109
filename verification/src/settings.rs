//! Reading the process environment at start. Each rule is a function of the
//! value found, so the binary applies it and the tests exercise it without
//! touching the real environment.

use vstd::prelude::*;
use crate::text::{
    chars_are, chars_of, parse_unsigned, parse_unsigned_chars, push_str, string_of, trim,
    trim_text, IntError,
};

verus! {

/// The characters of an optional string.
pub open spec fn optional_chars(value: Option<String>) -> Option<Seq<char>> {
    match value {
        Some(s) => Some(s@),
        None => None,
    }
}

/// What a boolean variable means: unset, blank or `false` is off, `true` is on,
/// and anything else has no meaning.
pub open spec fn flag_reading(value: Option<Seq<char>>) -> Option<bool> {
    match value {
        None => Some(false),
        Some(text) => {
            let t = trim(text);
            if t.len() == 0 || t == "false"@ {
                Some(false)
            } else if t == "true"@ {
                Some(true)
            } else {
                None
            }
        },
    }
}

/// A boolean variable is unset, `true`, or `false`. Anything else is a
/// configuration mistake worth stopping on rather than a value to guess at.
pub fn flag(name: &str, value: Option<String>) -> (r: Result<bool, String>)
    ensures
        match r {
            Ok(on) => flag_reading(optional_chars(value)) == Some(on),
            Err(message) => flag_reading(optional_chars(value)) is None && message@ == name@
                + " must be true or false"@,
        },
{
    match &value {
        None => Ok(false),
        Some(text) => {
            let t = trim_text(text.as_str());
            if t.len() == 0 || chars_are(&t, "false") {
                Ok(false)
            } else if chars_are(&t, "true") {
                Ok(true)
            } else {
                let mut message = chars_of(name);
                push_str(&mut message, " must be true or false");
                Err(string_of(&message))
            }
        },
    }
}

/// What `PORT` means: absent when unset or blank, otherwise a port number.
pub open spec fn port_reading(value: Option<Seq<char>>) -> Result<Option<u16>, IntError> {
    match value {
        None => Ok(None),
        Some(text) => {
            let t = trim(text);
            if t.len() == 0 {
                Ok(None)
            } else {
                match parse_unsigned(t, 65535) {
                    Ok(n) => Ok(Some(n as u16)),
                    Err(e) => Err(e),
                }
            }
        },
    }
}

/// A port written in decimal reads back as itself.
pub proof fn law_written_port_reads_back(port: u16)
    ensures
        port_reading(Some(crate::text::decimal_text(port as nat))) == Ok::<Option<u16>, IntError>(
            Some(port),
        ),
{
    crate::text::law_decimal_text_reads_back(port as nat, 65535);
}

/// Only the words `true` and `false`, white space around them aside, or no
/// text at all, have a meaning as a flag.
pub proof fn law_only_two_words_are_flags(text: Seq<char>)
    ensures
        flag_reading(Some(text)) is Some <==> (trim(text).len() == 0 || trim(text) == "true"@
            || trim(text) == "false"@),
        flag_reading(Some(text)) == Some(true) <==> trim(text) == "true"@,
{
    reveal_strlit("true");
    reveal_strlit("false");
}

/// `PORT`, when a host sets it, replaces the port of the configured address
/// and nothing else.
pub fn port(value: Option<String>) -> (r: Result<Option<u16>, String>)
    ensures
        match r {
            Ok(p) => port_reading(optional_chars(value)) == Ok::<Option<u16>, IntError>(p),
            Err(message) => exists|e: IntError|
                port_reading(optional_chars(value)) == Err::<Option<u16>, IntError>(e)
                    && message@ == "PORT must be a port number: "@ + e.spec_description(),
        },
{
    match &value {
        None => Ok(None),
        Some(text) => {
            let t = trim_text(text.as_str());
            if t.len() == 0 {
                Ok(None)
            } else {
                match parse_unsigned_chars(&t, 65535) {
                    Ok(n) => Ok(Some(n as u16)),
                    Err(e) => {
                        let mut message = chars_of("PORT must be a port number: ");
                        let mut reason = e.description();
                        message.append(&mut reason);
                        Err(string_of(&message))
                    },
                }
            }
        },
    }
}

} // verus!
