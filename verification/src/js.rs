//! The JavaScript-dialect interpreter: registry, native bindings, hot
//! reload.
//!
//! The interpreter comes from the `rquickjs` crate and is driven through a
//! small trusted layer; the reload decisions — which files run, when they
//! are skipped, how snapshots move — are verified here and match the Lua
//! dialect exactly.  Scripts see the same native-binding surface
//! (`clear_window_color`, `console.log`/`warn`/`error`, `setTimeout`); a
//! scheduled callback later runs in a fresh context, so it does not see
//! the globals of the context that scheduled it.

use vstd::prelude::*;

use crate::native::NativeEvent;
use crate::native::PlainValue;
use crate::native::recorder_new;
use crate::native::recorder_push;
use crate::native::recorder_take;
use crate::script::IoError;
use crate::script::ReloadOutcome;
use crate::script::ReloadReport;
use crate::script::ScriptFile;
use crate::script::ScriptRegistry;
use crate::script::reload_failed_at;
use crate::script::reload_file_ok;
use crate::script::reload_pass_ok;
use crate::script::trim_str;
use rquickjs::CatchResultExt;
use std::cell::RefCell;
use std::rc::Rc;

verus! {

/// The `rquickjs` runtime, opaque to the verifier.
#[verifier::external_type_specification]
#[verifier::external_body]
pub struct ExJsRuntime(rquickjs::Runtime);

/// One global environment of the runtime, opaque to the verifier.
#[verifier::external_type_specification]
#[verifier::external_body]
pub struct ExJsContext(rquickjs::Context);

/// A JavaScript value handed to a native binding, opaque to the verifier.
#[verifier::external_type_specification]
#[verifier::external_body]
pub struct ExJsValue<'js>(rquickjs::Value<'js>);

/// Relies on `rquickjs::Runtime::new`: a fresh runtime.
#[verifier::external_body]
fn js_runtime_new() -> (r: rquickjs::Runtime) {
    rquickjs::Runtime::new().unwrap()
}

/// Relies on `rquickjs::Context::full`: a fresh global environment with
/// all intrinsics.
#[verifier::external_body]
fn js_context_new(rt: &rquickjs::Runtime) -> (r: rquickjs::Context) {
    rquickjs::Context::full(rt).unwrap()
}

/// Relies on `Context::with` and `Ctx::eval`: runs one script source in
/// the context; a caught error comes back as text.  Nothing is assumed of
/// what the script did.
#[verifier::external_body]
fn js_exec(ctx: &rquickjs::Context, chunk: &str) -> (r: Result<(), String>) {
    ctx.with(|c| {
        match c.eval::<(), _>(chunk).catch(&c) {
            Ok(()) => Ok(()),
            Err(e) => Err(e.to_string()),
        }
    })
}

/// Relies on `rquickjs::Value` accessors: a script value mapped to the
/// plain form the console logic understands (string, 32-bit integer,
/// array, anything else unknown).
#[verifier::external_body]
fn js_value_to_plain<'js>(v: &rquickjs::Value<'js>) -> (r: PlainValue) {
    if let Some(s) = v.as_string() {
        PlainValue::Str(s.to_string().unwrap_or_default())
    } else if let Some(i) = v.as_int() {
        PlainValue::Int(i)
    } else if let Some(arr) = v.as_array() {
        let mut items = Vec::new();
        for item in arr.iter::<rquickjs::Value>().flatten() {
            items.push(js_value_to_plain(&item));
        }
        PlainValue::List(items)
    } else {
        PlainValue::Unknown
    }
}

/// Relies on `Object::set` and `Func::new`: installs the
/// `clear_window_color` global; each call records one `ClearColor` event
/// carrying the `f64` bit patterns of the four channel arguments.
#[verifier::external_body]
fn js_bind_clear_color(ctx: &rquickjs::Context, events: &Rc<RefCell<Vec<NativeEvent>>>) {
    let rec = events.clone();
    ctx.with(|c| {
        let f = rquickjs::prelude::Func::new(
            move |r: rquickjs::Value, g: rquickjs::Value, b: rquickjs::Value, a: rquickjs::Value| {
                let bits = |v: &rquickjs::Value| v.as_number().map(|x| x.to_bits()).unwrap_or(0);
                recorder_push(&rec, NativeEvent::ClearColor {
                    red_bits: bits(&r), green_bits: bits(&g), blue_bits: bits(&b), alpha_bits: bits(&a),
                });
            },
        );
        c.globals().set("clear_window_color", f).unwrap();
    });
}

/// Relies on `Object::new` / `Object::set` and `Func::new`: installs a
/// `console` object whose `log`, `warn` and `error` entries record one
/// `ConsoleLog` event per call.
#[verifier::external_body]
fn js_bind_console(ctx: &rquickjs::Context, events: &Rc<RefCell<Vec<NativeEvent>>>) {
    ctx.with(|c| {
        let console = rquickjs::Object::new(c.clone()).unwrap();
        for name in ["log", "warn", "error"] {
            let rec = events.clone();
            let f = rquickjs::prelude::Func::new(
                move |args: rquickjs::prelude::Rest<rquickjs::Value>| {
                    let values = args.iter().map(js_value_to_plain).collect();
                    recorder_push(&rec, NativeEvent::ConsoleLog { values });
                },
            );
            console.set(name, f).unwrap();
        }
        c.globals().set("console", console).unwrap();
    });
}

/// Relies on `Object::set` and `Func::new`: installs the `setTimeout`
/// global; each call records one fire-and-forget `Schedule` event carrying
/// the callback source and the delay in milliseconds.
#[verifier::external_body]
fn js_bind_set_timeout(ctx: &rquickjs::Context, events: &Rc<RefCell<Vec<NativeEvent>>>) {
    let rec = events.clone();
    ctx.with(|c| {
        let f = rquickjs::prelude::Func::new(move |callback: String, delay_ms: u64| {
            recorder_push(&rec, NativeEvent::Schedule { callback, delay_ms });
        });
        c.globals().set("setTimeout", f).unwrap();
    });
}

/// Relies on `Object::set`: installs the engine's `myGlobal` marker value
/// into the global namespace.
#[verifier::external_body]
fn js_set_my_global(ctx: &rquickjs::Context) {
    ctx.with(|c| {
        c.globals().set("myGlobal", 42).unwrap();
    });
}

/// The JavaScript dialect: one long-lived runtime and context, the
/// ordered file registry with its snapshots, and the queue of recorded
/// native-binding calls.
pub struct JSParser {
    pub runtime: rquickjs::Runtime,
    pub context: rquickjs::Context,
    pub registry: ScriptRegistry,
    pub events: Rc<RefCell<Vec<NativeEvent>>>,
}

impl JSParser {
    /// A fresh runtime and context with an empty registry; no bindings
    /// are installed until `init_globals`.
    pub fn setup() -> (r: Self)
        ensures
            r.registry.files@ =~= Seq::<ScriptFile>::empty(),
    {
        let runtime = js_runtime_new();
        let context = js_context_new(&runtime);
        JSParser { runtime, context, registry: ScriptRegistry::new(), events: recorder_new() }
    }

    /// Installs the whole native-binding surface (and the `myGlobal`
    /// marker) into the context's global namespace.
    pub fn set_globals(&mut self)
        ensures
            final(self).registry == old(self).registry,
            final(self).runtime == old(self).runtime,
            final(self).context == old(self).context,
            final(self).events == old(self).events,
    {
        js_set_my_global(&self.context);
        js_bind_clear_color(&self.context, &self.events);
        js_bind_console(&self.context, &self.events);
        js_bind_set_timeout(&self.context, &self.events);
    }

    /// Installs the native bindings; the engine calls this once per
    /// interpreter before any reload.
    pub fn init_globals(&mut self)
        ensures
            final(self).registry == old(self).registry,
            final(self).runtime == old(self).runtime,
            final(self).context == old(self).context,
            final(self).events == old(self).events,
    {
        self.set_globals();
    }

    /// Registers one more script file for this dialect.
    pub fn add(&mut self, file: String)
        ensures
            final(self).registry.files@ == old(self).registry.files@.push(
                ScriptFile { path: file, last_content: None },
            ),
            final(self).runtime == old(self).runtime,
            final(self).context == old(self).context,
            final(self).events == old(self).events,
    {
        self.registry.add(file);
    }

    /// One reload pass over the registry, in registration order; the same
    /// contract as the Lua dialect's pass.
    ///
    /// `contents[k]` is the current content of file `k`, or `None` if it
    /// could not be read.  A file whose trimmed content equals its stored
    /// snapshot is skipped; otherwise its content runs in the context, and
    /// only a successful run replaces the snapshot.  An unreadable file
    /// ends the pass with the fatal [`IoError`] naming it.
    pub fn load(&mut self, contents: &Vec<Option<String>>) -> (r: Result<ReloadReport, IoError>)
        requires
            contents@.len() == old(self).registry.files@.len(),
        ensures
            r matches Ok(rep) ==> reload_pass_ok(
                old(self).registry.files@,
                final(self).registry.files@,
                contents@,
                rep.outcomes@,
            ),
            r matches Err(e) ==> reload_failed_at(
                old(self).registry.files@,
                final(self).registry.files@,
                contents@,
                e,
                e.at@,
            ),
            final(self).runtime == old(self).runtime,
            final(self).context == old(self).context,
            final(self).events == old(self).events,
    {
        let n = self.registry.files.len();
        let mut outcomes: Vec<ReloadOutcome> = Vec::new();
        let mut k: usize = 0;
        #[verifier::loop_isolation(false)]
        while k < n
            invariant
                0 <= k <= n,
                self.registry.files@.len() == n,
                self.runtime == old(self).runtime,
                self.context == old(self).context,
                self.events == old(self).events,
                outcomes@.len() == k,
                forall|j: int| #![trigger contents@[j]]
                    0 <= j < k ==> contents@[j] is Some && reload_file_ok(
                        old(self).registry.files@[j],
                        self.registry.files@[j],
                        contents@[j]->Some_0@,
                        outcomes@[j],
                    ),
                forall|j: int|
                    k <= j < n ==> self.registry.files@[j] == old(self).registry.files@[j],
            decreases n - k,
        {
            match &contents[k] {
                None => {
                    let e = IoError {
                        path: self.registry.files[k].path.clone(),
                        at: Ghost(k as int),
                    };
                    proof {
                        assert forall|j: int| 0 <= j < k implies contents@[j] is Some
                            && crate::script::reload_file_partial(
                            old(self).registry.files@[j],
                            self.registry.files@[j],
                            contents@[j]->Some_0@,
                        ) by {
                            assert(reload_file_ok(
                                old(self).registry.files@[j],
                                self.registry.files@[j],
                                contents@[j]->Some_0@,
                                outcomes@[j],
                            ));
                        }
                        assert(reload_failed_at(
                            old(self).registry.files@,
                            self.registry.files@,
                            contents@,
                            e,
                            k as int,
                        ));
                    }
                    return Err(e);
                },
                Some(content) => {
                    let ghost fb = old(self).registry.files@[k as int];
                    let ghost cv = contents@[k as int]->Some_0@;
                    let trimmed = trim_str(content.as_str());
                    let unchanged = match &self.registry.files[k].last_content {
                        Some(prev) => *prev == trimmed,
                        None => false,
                    };
                    proof {
                        assert(unchanged == !crate::script::wants_execution(fb, cv));
                    }
                    if unchanged {
                        outcomes.push(ReloadOutcome::Skipped);
                        proof {
                            assert(reload_file_ok(fb, self.registry.files@[k as int], cv, outcomes@[k as int]));
                        }
                    } else {
                        match js_exec(&self.context, content.as_str()) {
                            Ok(_) => {
                                self.registry.files[k].last_content = Some(trimmed);
                                outcomes.push(ReloadOutcome::Executed);
                                proof {
                                    assert(crate::script::snapshot_view(self.registry.files@[k as int])
                                        == Some(crate::script::trim_spec(cv)));
                                    assert(reload_file_ok(fb, self.registry.files@[k as int], cv, outcomes@[k as int]));
                                }
                            },
                            Err(msg) => {
                                outcomes.push(ReloadOutcome::Failed(msg));
                                proof {
                                    assert(reload_file_ok(fb, self.registry.files@[k as int], cv, outcomes@[k as int]));
                                }
                            },
                        }
                    }
                    k = k + 1;
                },
            }
        }
        Ok(ReloadReport { outcomes })
    }

    /// Drains the recorded native-binding calls, oldest first.
    pub fn take_events(&mut self) -> (out: Vec<NativeEvent>)
        ensures
            final(self).registry == old(self).registry,
            final(self).runtime == old(self).runtime,
            final(self).context == old(self).context,
            final(self).events == old(self).events,
    {
        recorder_take(&self.events)
    }
}

} // verus!
