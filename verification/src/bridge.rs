//! The script runtime bridge: one registry per dialect, filled by suffix.
//!
//! At startup the engine hands an ordered list of script paths to the
//! bridge; each path is routed to the interpreter dialect that owns it
//! (`.lua` to the Lua dialect, everything else to the JavaScript one),
//! keeping the relative order of the paths inside each dialect.

use vstd::prelude::*;

use crate::dialect::ScriptDialect;
use crate::dialect::classify_script;
use crate::dialect::dialect_of;
use crate::js::JSParser;
use crate::lua::LuaParser;
use crate::script::ScriptFile;

verus! {

/// The path views of a registry's files, in order.
pub open spec fn file_paths(files: Seq<ScriptFile>) -> Seq<Seq<char>> {
    files.map_values(|f: ScriptFile| f.path@)
}

/// The paths of `scripts` that belong to dialect `d`, in order.
pub open spec fn routed(paths: Seq<Seq<char>>, d: ScriptDialect) -> Seq<Seq<char>> {
    paths.filter(|p: Seq<char>| dialect_of(p) == d)
}

/// Installs both interpreters' globals and routes every configured script
/// path to the dialect that owns it, in order: a path ending in `.lua`
/// joins the Lua registry, every other path the JavaScript registry.
/// Files already registered are untouched and every new entry starts with
/// no snapshot.
pub fn initialize_app(scripts: &Vec<String>, lua: &mut LuaParser, js: &mut JSParser)
    ensures
        file_paths(final(lua).registry.files@) == file_paths(old(lua).registry.files@) + routed(
            scripts.deep_view(),
            ScriptDialect::Lua,
        ),
        file_paths(final(js).registry.files@) == file_paths(old(js).registry.files@) + routed(
            scripts.deep_view(),
            ScriptDialect::Js,
        ),
        forall|j: int|
            0 <= j < old(lua).registry.files@.len() ==> final(lua).registry.files@[j]
                == old(lua).registry.files@[j],
        forall|j: int|
            0 <= j < old(js).registry.files@.len() ==> final(js).registry.files@[j]
                == old(js).registry.files@[j],
        forall|j: int|
            old(lua).registry.files@.len() <= j < final(lua).registry.files@.len()
                ==> final(lua).registry.files@[j].last_content is None,
        forall|j: int|
            old(js).registry.files@.len() <= j < final(js).registry.files@.len()
                ==> final(js).registry.files@[j].last_content is None,
{
    lua.init_globals();
    js.init_globals();
    let ghost paths = scripts.deep_view();
    let ghost lua0 = lua.registry.files@;
    let ghost js0 = js.registry.files@;
    let n = scripts.len();
    let mut i: usize = 0;
    #[verifier::loop_isolation(false)]
    while i < n
        invariant
            0 <= i <= n,
            file_paths(lua.registry.files@) == file_paths(lua0) + routed(
                paths.take(i as int),
                ScriptDialect::Lua,
            ),
            file_paths(js.registry.files@) == file_paths(js0) + routed(
                paths.take(i as int),
                ScriptDialect::Js,
            ),
            lua0.len() <= lua.registry.files@.len(),
            js0.len() <= js.registry.files@.len(),
            forall|j: int| 0 <= j < lua0.len() ==> lua.registry.files@[j] == lua0[j],
            forall|j: int| 0 <= j < js0.len() ==> js.registry.files@[j] == js0[j],
            forall|j: int|
                lua0.len() <= j < lua.registry.files@.len()
                    ==> lua.registry.files@[j].last_content is None,
            forall|j: int|
                js0.len() <= j < js.registry.files@.len()
                    ==> js.registry.files@[j].last_content is None,
        decreases n - i,
    {
        let ghost lua_pre = lua.registry.files@;
        let ghost js_pre = js.registry.files@;
        let script = &scripts[i];
        let d = classify_script(script.as_str());
        match d {
            ScriptDialect::Lua => {
                lua.add(script.clone());
            },
            ScriptDialect::Js => {
                js.add(script.clone());
            },
        }
        proof {
            let pred_lua = |p: Seq<char>| dialect_of(p) == ScriptDialect::Lua;
            let pred_js = |p: Seq<char>| dialect_of(p) == ScriptDialect::Js;
            assert(paths.take(i + 1) =~= paths.take(i as int).push(paths[i as int]));
            paths.take(i as int).lemma_filter_push(paths[i as int], pred_lua);
            paths.take(i as int).lemma_filter_push(paths[i as int], pred_js);
            if d == ScriptDialect::Lua {
                assert(file_paths(lua.registry.files@) =~= file_paths(lua_pre).push(
                    paths[i as int],
                ));
                Seq::push_distributes_over_add(
                    file_paths(lua0),
                    routed(paths.take(i as int), ScriptDialect::Lua),
                    paths[i as int],
                );
            } else {
                assert(file_paths(js.registry.files@) =~= file_paths(js_pre).push(
                    paths[i as int],
                ));
                Seq::push_distributes_over_add(
                    file_paths(js0),
                    routed(paths.take(i as int), ScriptDialect::Js),
                    paths[i as int],
                );
            }
        }
        i = i + 1;
    }
    proof {
        assert(paths.take(n as int) =~= paths);
    }
}

} // verus!
