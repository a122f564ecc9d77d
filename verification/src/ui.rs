//! What is shown to the operator, and how the operator's answers are read.

use vstd::prelude::*;
use vstd::string::*;
use vstd::utf8::encode_utf8;
use crate::std_text::{lowercase, lowercase_of};
use crate::text::{opt_text, repeat, same_text};
use crate::trim::{trim, trim_text};

verus! {

/// The width to lay text out in: the number of columns of the terminal, or
/// 80 where that is not known.
pub open spec fn width_of(columns: Option<u16>) -> usize {
    match columns {
        Some(w) => w as usize,
        None => 80,
    }
}

/// How many spaces go before `text` to centre it in `width` columns: half
/// of what its bytes leave free.
pub open spec fn padding(text: Seq<char>, width: usize) -> nat {
    let used = encode_utf8(text).len() as usize;
    if used >= width {
        0
    } else {
        ((width - used) / 2) as nat
    }
}

/// `text` centred in `width` columns.
pub open spec fn centered(text: Seq<char>, width: usize) -> Seq<char> {
    Seq::new(padding(text, width), |i: int| ' ') + text
}

/// Whether a lower-case answer says yes.
pub open spec fn says_yes(lowered: Seq<char>) -> bool {
    lowered == "y"@ || lowered == "yes"@
}

/// Whether the operator's answer to a yes-or-no question is a yes: `y` or
/// `yes`, in any case, white space around it set aside. No answer is a no.
pub open spec fn is_yes(answer: Option<Seq<char>>) -> bool {
    match answer {
        Some(a) => says_yes(lowercase_of(trim(a))),
        None => false,
    }
}

/// The terminal and the operator's answers.
pub struct UI;

impl UI {
    /// The width to lay text out in.
    pub fn width(columns: Option<u16>) -> (w: usize)
        ensures
            w == width_of(columns),
    {
        match columns {
            Some(w) => w as usize,
            None => 80,
        }
    }

    /// `text` centred in `width` columns.
    pub fn center_text(text: &str, width: usize) -> (r: String)
        ensures
            r@ == centered(text@, width),
    {
        let used = text.len();
        let pad = if used >= width {
            0
        } else {
            (width - used) / 2
        };
        repeat(' ', pad).concat(text)
    }

    /// The line that separates sections: `width` times a horizontal bar.
    pub fn print_separator(width: usize) -> (r: String)
        ensures
            r@ == Seq::new(width as nat, |i: int| '─'),
    {
        repeat('─', width)
    }

    /// Whether a lower-case answer says yes.
    pub fn means_yes(lowered: &str) -> (b: bool)
        ensures
            b == says_yes(lowered@),
    {
        same_text(lowered, "y") || same_text(lowered, "yes")
    }

    /// Whether the operator's answer to a yes-or-no question is a yes.
    pub fn prompt_yes_no(answer: &Option<String>) -> (b: bool)
        ensures
            b == is_yes(opt_text(*answer)),
    {
        match answer {
            Some(a) => {
                let t = trim_text(a.as_str());
                Self::means_yes(lowercase(t.as_str()).as_str())
            },
            None => false,
        }
    }

    /// The operator's answer to a prompt: the line without the white space
    /// around it, empty where none could be read.
    pub fn prompt_input(line: &Option<String>) -> (r: String)
        ensures
            r@ == (match *line {
                Some(l) => trim(l@),
                None => Seq::empty(),
            }),
    {
        match line {
            Some(l) => trim_text(l.as_str()),
            None => String::new(),
        }
    }

    /// Whether the operator pressed Enter: a line could be read.
    pub fn wait_for_enter(line: &Option<String>) -> (b: bool)
        ensures
            b == (*line is Some),
    {
        line.is_some()
    }
}

} // verus!
