//! The Lua-dialect interpreter: registry, native bindings, hot reload.
//!
//! The interpreter itself comes from the `mlua` crate and is driven through
//! a small trusted layer; everything the engine decides about it — which
//! files to run, when to skip them, how snapshots move — is verified here.
//! Scripts see the engine through the shared native-binding surface
//! (`clear_window_color`, `console.log`/`warn`/`error`, `setTimeout`);
//! every invocation is recorded as a [`NativeEvent`] for the host to act
//! on.

use vstd::prelude::*;

use crate::native::NativeEvent;
use crate::native::PlainValue;
use crate::native::recorder_new;
use crate::native::recorder_push;
use crate::native::recorder_take;
use crate::script::IoError;
use crate::script::ReloadOutcome;
use crate::script::ReloadReport;
use crate::script::ScriptFile;
use crate::script::ScriptRegistry;
use crate::script::reload_failed_at;
use crate::script::reload_file_ok;
use crate::script::reload_pass_ok;
use crate::script::trim_str;
use std::cell::RefCell;
use std::rc::Rc;

verus! {

/// The `mlua` interpreter state, opaque to the verifier.
#[verifier::external_type_specification]
#[verifier::external_body]
pub struct ExLua(mlua::Lua);

/// A Lua value handed to a native binding, opaque to the verifier.
#[verifier::external_type_specification]
#[verifier::external_body]
pub struct ExLuaValue(mlua::Value);

/// Relies on `mlua::Lua::new`: a fresh interpreter with the safe part of
/// the standard library loaded.
#[verifier::external_body]
fn lua_new() -> (r: mlua::Lua) {
    mlua::Lua::new()
}

/// Relies on `mlua::Lua::load` and `Chunk::exec`: runs one chunk in the
/// interpreter; the error message is returned as text.  Nothing is assumed
/// of what the chunk did.
#[verifier::external_body]
fn lua_exec(lua: &mlua::Lua, chunk: &str) -> (r: Result<(), String>) {
    lua.load(chunk).exec().map_err(|e| e.to_string())
}

/// Relies on `mlua::Value` accessors: a script value mapped to the plain
/// form the console logic understands (string, 32-bit integer, sequence
/// part of a table, anything else unknown).
#[verifier::external_body]
fn lua_value_to_plain(v: &mlua::Value) -> (r: PlainValue) {
    if let mlua::Value::String(s) = v {
        PlainValue::Str(s.to_string_lossy())
    } else if let mlua::Value::Integer(i) = v {
        i32::try_from(*i).map(PlainValue::Int).unwrap_or(PlainValue::Unknown)
    } else if let mlua::Value::Table(t) = v {
        let mut items = Vec::new();
        for item in t.clone().sequence_values::<mlua::Value>().flatten() {
            items.push(lua_value_to_plain(&item));
        }
        PlainValue::List(items)
    } else {
        PlainValue::Unknown
    }
}

/// Relies on `mlua::Lua::create_function` and `Table::set`: installs the
/// `clear_window_color` global; each call records one `ClearColor` event
/// carrying the `f64` bit patterns of the four channel arguments.
#[verifier::external_body]
fn lua_bind_clear_color(lua: &mlua::Lua, events: &Rc<RefCell<Vec<NativeEvent>>>) {
    let rec = events.clone();
    let f = lua.create_function(move |l: &mlua::Lua, (r, g, b, a): (mlua::Value, mlua::Value, mlua::Value, mlua::Value)| {
        let bits = |v: &mlua::Value| {
            l.coerce_number(v.clone()).ok().flatten().map(|x| x.to_bits()).unwrap_or(0)
        };
        recorder_push(&rec, NativeEvent::ClearColor {
            red_bits: bits(&r), green_bits: bits(&g), blue_bits: bits(&b), alpha_bits: bits(&a),
        });
        Ok(())
    }).unwrap();
    lua.globals().set("clear_window_color", f).unwrap();
}

/// Relies on `mlua::Lua::create_table` / `create_function` and
/// `Table::set`: installs a `console` table whose `log`, `warn` and
/// `error` entries record one `ConsoleLog` event per call.
#[verifier::external_body]
fn lua_bind_console(lua: &mlua::Lua, events: &Rc<RefCell<Vec<NativeEvent>>>) {
    let console = lua.create_table().unwrap();
    for name in ["log", "warn", "error"] {
        let rec = events.clone();
        let f = lua.create_function(move |_, args: mlua::Variadic<mlua::Value>| {
            let values = args.iter().map(lua_value_to_plain).collect();
            recorder_push(&rec, NativeEvent::ConsoleLog { values });
            Ok(())
        }).unwrap();
        console.set(name, f).unwrap();
    }
    lua.globals().set("console", console).unwrap();
}

/// Relies on `mlua::Lua::create_function` and `Table::set`: installs the
/// `setTimeout` global; each call records one fire-and-forget `Schedule`
/// event carrying the callback source and the delay in milliseconds.
#[verifier::external_body]
fn lua_bind_set_timeout(lua: &mlua::Lua, events: &Rc<RefCell<Vec<NativeEvent>>>) {
    let rec = events.clone();
    let f = lua.create_function(move |_, (callback, delay_ms): (String, u64)| {
        recorder_push(&rec, NativeEvent::Schedule { callback, delay_ms });
        Ok(())
    }).unwrap();
    lua.globals().set("setTimeout", f).unwrap();
}

/// The Lua dialect: one long-lived interpreter, the ordered file registry
/// with its snapshots, and the queue of recorded native-binding calls.
pub struct LuaParser {
    pub lua: mlua::Lua,
    pub registry: ScriptRegistry,
    pub events: Rc<RefCell<Vec<NativeEvent>>>,
}

impl LuaParser {
    /// A fresh interpreter with an empty registry; no bindings are
    /// installed until `init_globals`.
    pub fn setup() -> (r: Self)
        ensures
            r.registry.files@ =~= Seq::<ScriptFile>::empty(),
    {
        LuaParser { lua: lua_new(), registry: ScriptRegistry::new(), events: recorder_new() }
    }

    /// Installs the whole native-binding surface into the interpreter's
    /// global namespace.  Must run once before the first reload pass.
    pub fn set_globals(&mut self)
        ensures
            final(self).registry == old(self).registry,
            final(self).lua == old(self).lua,
            final(self).events == old(self).events,
    {
        lua_bind_clear_color(&self.lua, &self.events);
        lua_bind_console(&self.lua, &self.events);
        lua_bind_set_timeout(&self.lua, &self.events);
    }

    /// Installs the native bindings; the engine calls this once per
    /// interpreter before any reload.
    pub fn init_globals(&mut self)
        ensures
            final(self).registry == old(self).registry,
            final(self).lua == old(self).lua,
            final(self).events == old(self).events,
    {
        self.set_globals();
    }

    /// Registers one more script file for this dialect.
    pub fn add(&mut self, file: String)
        ensures
            final(self).registry.files@ == old(self).registry.files@.push(
                ScriptFile { path: file, last_content: None },
            ),
            final(self).lua == old(self).lua,
            final(self).events == old(self).events,
    {
        self.registry.add(file);
    }

    /// One reload pass over the registry, in registration order.
    ///
    /// `contents[k]` is the current content of file `k`, or `None` if it
    /// could not be read.  A file whose trimmed content equals its stored
    /// snapshot is skipped; otherwise its content runs in the interpreter,
    /// and only a successful run replaces the snapshot (a failed one is
    /// reported and retried next pass).  An unreadable file ends the pass
    /// with the fatal [`IoError`] naming it; files after it are untouched.
    pub fn load(&mut self, contents: &Vec<Option<String>>) -> (r: Result<ReloadReport, IoError>)
        requires
            contents@.len() == old(self).registry.files@.len(),
        ensures
            r matches Ok(rep) ==> reload_pass_ok(
                old(self).registry.files@,
                final(self).registry.files@,
                contents@,
                rep.outcomes@,
            ),
            r matches Err(e) ==> reload_failed_at(
                old(self).registry.files@,
                final(self).registry.files@,
                contents@,
                e,
                e.at@,
            ),
            final(self).lua == old(self).lua,
            final(self).events == old(self).events,
    {
        let n = self.registry.files.len();
        let mut outcomes: Vec<ReloadOutcome> = Vec::new();
        let mut k: usize = 0;
        #[verifier::loop_isolation(false)]
        while k < n
            invariant
                0 <= k <= n,
                self.registry.files@.len() == n,
                self.lua == old(self).lua,
                self.events == old(self).events,
                outcomes@.len() == k,
                forall|j: int| #![trigger contents@[j]]
                    0 <= j < k ==> contents@[j] is Some && reload_file_ok(
                        old(self).registry.files@[j],
                        self.registry.files@[j],
                        contents@[j]->Some_0@,
                        outcomes@[j],
                    ),
                forall|j: int|
                    k <= j < n ==> self.registry.files@[j] == old(self).registry.files@[j],
            decreases n - k,
        {
            match &contents[k] {
                None => {
                    let e = IoError {
                        path: self.registry.files[k].path.clone(),
                        at: Ghost(k as int),
                    };
                    proof {
                        assert forall|j: int| 0 <= j < k implies contents@[j] is Some
                            && crate::script::reload_file_partial(
                            old(self).registry.files@[j],
                            self.registry.files@[j],
                            contents@[j]->Some_0@,
                        ) by {
                            assert(reload_file_ok(
                                old(self).registry.files@[j],
                                self.registry.files@[j],
                                contents@[j]->Some_0@,
                                outcomes@[j],
                            ));
                        }
                        assert(reload_failed_at(
                            old(self).registry.files@,
                            self.registry.files@,
                            contents@,
                            e,
                            k as int,
                        ));
                    }
                    return Err(e);
                },
                Some(content) => {
                    let ghost fb = old(self).registry.files@[k as int];
                    let ghost cv = contents@[k as int]->Some_0@;
                    let trimmed = trim_str(content.as_str());
                    let unchanged = match &self.registry.files[k].last_content {
                        Some(prev) => *prev == trimmed,
                        None => false,
                    };
                    proof {
                        assert(unchanged == !crate::script::wants_execution(fb, cv));
                    }
                    if unchanged {
                        outcomes.push(ReloadOutcome::Skipped);
                        proof {
                            assert(reload_file_ok(fb, self.registry.files@[k as int], cv, outcomes@[k as int]));
                        }
                    } else {
                        match lua_exec(&self.lua, content.as_str()) {
                            Ok(_) => {
                                self.registry.files[k].last_content = Some(trimmed);
                                outcomes.push(ReloadOutcome::Executed);
                                proof {
                                    assert(crate::script::snapshot_view(self.registry.files@[k as int])
                                        == Some(crate::script::trim_spec(cv)));
                                    assert(reload_file_ok(fb, self.registry.files@[k as int], cv, outcomes@[k as int]));
                                }
                            },
                            Err(msg) => {
                                outcomes.push(ReloadOutcome::Failed(msg));
                                proof {
                                    assert(reload_file_ok(fb, self.registry.files@[k as int], cv, outcomes@[k as int]));
                                }
                            },
                        }
                    }
                    k = k + 1;
                },
            }
        }
        Ok(ReloadReport { outcomes })
    }

    /// Drains the recorded native-binding calls, oldest first.
    pub fn take_events(&mut self) -> (out: Vec<NativeEvent>)
        ensures
            final(self).registry == old(self).registry,
            final(self).lua == old(self).lua,
            final(self).events == old(self).events,
    {
        recorder_take(&self.events)
    }
}

} // verus!
