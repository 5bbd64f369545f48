//! Resolution of the build mode from the packaging environment variable.

use vstd::prelude::*;

verus! {

/// The resolved build configuration.
///
/// `Production` is selected only when the packaging environment variable is
/// present and equals the production marker ignoring ASCII case, so `prod`,
/// `PROD` and `Prod` all select it; every other value, and absence of the
/// variable, selects `Development`. One comparison policy, applied by every
/// stage alike.
#[derive(Clone, Copy, Debug, PartialEq, Eq, Structural)]
pub enum Mode {
    /// The build is being packaged for release.
    Production,
    /// The default mode: the variable is absent or holds any other value.
    Development,
}

/// The value of the packaging environment variable that selects production
/// mode.
pub open spec fn production_marker() -> Seq<char> {
    "prod"@
}

/// ASCII lower-casing of one character: upper-case ASCII letters map to
/// their lower-case form, everything else stays as it is.
pub open spec fn ascii_lower_char(c: char) -> char {
    if c == 'A' {
        'a'
    } else if c == 'B' {
        'b'
    } else if c == 'C' {
        'c'
    } else if c == 'D' {
        'd'
    } else if c == 'E' {
        'e'
    } else if c == 'F' {
        'f'
    } else if c == 'G' {
        'g'
    } else if c == 'H' {
        'h'
    } else if c == 'I' {
        'i'
    } else if c == 'J' {
        'j'
    } else if c == 'K' {
        'k'
    } else if c == 'L' {
        'l'
    } else if c == 'M' {
        'm'
    } else if c == 'N' {
        'n'
    } else if c == 'O' {
        'o'
    } else if c == 'P' {
        'p'
    } else if c == 'Q' {
        'q'
    } else if c == 'R' {
        'r'
    } else if c == 'S' {
        's'
    } else if c == 'T' {
        't'
    } else if c == 'U' {
        'u'
    } else if c == 'V' {
        'v'
    } else if c == 'W' {
        'w'
    } else if c == 'X' {
        'x'
    } else if c == 'Y' {
        'y'
    } else if c == 'Z' {
        'z'
    } else {
        c
    }
}

/// A text lower-cased character by character.
pub open spec fn ascii_lower(s: Seq<char>) -> Seq<char> {
    s.map_values(|c: char| ascii_lower_char(c))
}

/// The mode that a given (optional) environment value resolves to.
pub open spec fn resolve_spec(var: Option<Seq<char>>) -> Mode {
    match var {
        Option::Some(v) => if ascii_lower(v) == production_marker() {
            Mode::Production
        } else {
            Mode::Development
        },
        Option::None => Mode::Development,
    }
}

/// The view of an optional environment value.
pub open spec fn opt_view(var: Option<String>) -> Option<Seq<char>> {
    match var {
        Option::Some(s) => Option::Some(s@),
        Option::None => Option::None,
    }
}

/// Whether a value equals the production marker ignoring ASCII case.
fn is_production_value(s: &str) -> (b: bool)
    ensures
        b == (ascii_lower(s@) == production_marker()),
{
    proof {
        reveal_strlit("prod");
    }
    let n = s.unicode_len();
    if n != 4 {
        proof {
            assert(ascii_lower(s@).len() == s@.len());
        }
        return false;
    }
    let c0 = s.get_char(0);
    let c1 = s.get_char(1);
    let c2 = s.get_char(2);
    let c3 = s.get_char(3);
    let b = (c0 == 'p' || c0 == 'P') && (c1 == 'r' || c1 == 'R') && (c2 == 'o' || c2 == 'O') && (
    c3 == 'd' || c3 == 'D');
    proof {
        let low = ascii_lower(s@);
        assert(low[0] == ascii_lower_char(s@[0]));
        assert(low[1] == ascii_lower_char(s@[1]));
        assert(low[2] == ascii_lower_char(s@[2]));
        assert(low[3] == ascii_lower_char(s@[3]));
        if b {
            assert(low =~= "prod"@);
        }
    }
    b
}

/// Resolves the build mode from the packaging environment variable's value,
/// `None` standing for an unset variable. Absence is a valid input, not an
/// error.
pub fn resolve(var: &Option<String>) -> (m: Mode)
    ensures
        m == resolve_spec(opt_view(*var)),
{
    match var {
        Option::Some(value) => {
            if is_production_value(value.as_str()) {
                Mode::Production
            } else {
                Mode::Development
            }
        },
        Option::None => Mode::Development,
    }
}

} // verus!
