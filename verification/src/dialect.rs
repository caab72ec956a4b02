//! Dialect dispatch for registered script paths.
//!
//! The engine embeds two interpreters.  A registered path is routed by its
//! suffix: a path ending in the literal suffix `.lua` belongs to the Lua
//! dialect, every other path to the JavaScript dialect.  There is no
//! warning for unknown suffixes; they simply fall to the second dialect.

use vstd::prelude::*;

verus! {

/// The two interpreter dialects the engine embeds.
#[derive(Clone, Copy, Debug, PartialEq, Eq, Structural)]
pub enum ScriptDialect {
    Lua,
    Js,
}

/// The literal suffix that selects the Lua dialect.
pub open spec fn lua_suffix() -> Seq<char> {
    seq!['.', 'l', 'u', 'a']
}

/// Whether a path ends in the literal suffix `.lua`.
pub open spec fn is_lua_path(p: Seq<char>) -> bool {
    p.len() >= 4 && p.subrange(p.len() - 4, p.len() as int) == lua_suffix()
}

/// The dialect that owns a path: `.lua` files belong to the Lua dialect,
/// everything else to the JavaScript dialect.
pub open spec fn dialect_of(p: Seq<char>) -> ScriptDialect {
    if is_lua_path(p) {
        ScriptDialect::Lua
    } else {
        ScriptDialect::Js
    }
}

/// Routes a path to the dialect that owns it.
pub fn classify_script(path: &str) -> (d: ScriptDialect)
    ensures
        d == dialect_of(path@),
{
    let n = path.unicode_len();
    if n >= 4 && path.get_char(n - 4) == '.' && path.get_char(n - 3) == 'l' && path.get_char(
        n - 2,
    ) == 'u' && path.get_char(n - 1) == 'a' {
        proof {
            assert(path@.subrange(n - 4, n as int) =~= lua_suffix());
        }
        ScriptDialect::Lua
    } else {
        proof {
            if path@.len() >= 4 {
                let tail = path@.subrange(n - 4, n as int);
                assert(tail[0] == path@[n - 4]);
                assert(tail[1] == path@[n - 3]);
                assert(tail[2] == path@[n - 2]);
                assert(tail[3] == path@[n - 1]);
            }
        }
        ScriptDialect::Js
    }
}

} // verus!
