//! Evaluation of source text.
//!
//! Source text is not handed to the interpreter's evaluator as it is: a
//! failing script would take the process down with it. It is handed to a
//! function, made once per runtime, that evaluates the text in a fresh
//! evaluator and catches what goes wrong. That function answers with a pair:
//! a flag and a payload. A flag of zero says that the payload is the result;
//! any other flag says that the payload is the text of an error.

use vstd::prelude::*;
use crate::backend::Backend;
use crate::decide::{settle, settled};
use crate::error::{outcome, reported, Error, ErrorView, Fault};
use crate::runtime::Runtime;
use crate::decide::ArrayProbe;
use crate::value::{string_outcome, value_outcome, BQNValue};

verus! {

/// The source of the function that evaluates text and catches failures.
pub const EVALUATOR: &'static str =
    "r←•ReBQN{repl⇐\"none\"}⋄{0‿(R𝕩)}⎊{𝕊: 1‿(\"Error: \"∾•CurrentError@)}";

/// Making the evaluating function: its source is made into a string, the
/// string is evaluated, and the string is released.
pub open spec fn evaluator_made<B: Backend>(
    engine: B,
    src: Result<u64, Fault>,
    made: Result<u64, Fault>,
    freed: Result<(), Fault>,
    f: Result<u64, Fault>,
) -> bool {
    &&& call_ensures(B::bqn_makeUTF8Str, (&engine, EVALUATOR), src)
    &&& match src {
        Err(x) => f == Err::<u64, Fault>(x),
        Ok(s) => {
            &&& call_ensures(B::bqn_eval, (&engine, s), made)
            &&& call_ensures(B::bqn_free, (&engine, s), freed)
            &&& f == settled(made, freed)
        },
    }
}

/// Whether a handle is that of an evaluating function that the backend
/// `by` made of the function's source.
pub open spec fn evaluator_made_by<B: Backend>(by: B, h: u64) -> bool {
    exists|src: Result<u64, Fault>, made: Result<u64, Fault>, freed: Result<(), Fault>|
        #![trigger evaluator_made(by, src, made, freed, Ok::<u64, Fault>(h))]
        evaluator_made(by, src, made, freed, Ok::<u64, Fault>(h))
}

/// Whether a handle is that of an evaluating function that a backend made
/// of the function's source.
pub open spec fn evaluator_kept<B: Backend>(h: u64) -> bool {
    exists|by: B| #[trigger] evaluator_made_by(by, h)
}

/// The evaluating function, together with the evidence that it was made of
/// its source. The runtime keeps it for the evaluations to come.
pub(crate) struct Evaluator<B: Backend> {
    handle: u64,
    by: Ghost<B>,
}

impl<B: Backend> Evaluator<B> {
    #[verifier::type_invariant]
    spec fn was_made(self) -> bool {
        evaluator_made_by(self.by@, self.handle)
    }

    /// The handle of the function.
    pub(crate) fn handle(&self) -> (h: u64)
        ensures
            evaluator_kept::<B>(h),
    {
        proof {
            use_type_invariant(self);
        }
        self.handle
    }
}

/// Getting the evaluating function: one that is made now, or the one that
/// the runtime has kept since it was made.
pub open spec fn evaluator_had<B: Backend>(engine: B, f: Result<u64, Fault>) -> bool {
    ||| exists|src: Result<u64, Fault>, made: Result<u64, Fault>, freed: Result<(), Fault>|
        #![trigger evaluator_made(engine, src, made, freed, f)]
        evaluator_made(engine, src, made, freed, f)
    ||| f matches Ok(h) && evaluator_kept::<B>(h)
}

/// Handing source text to the evaluating function: the text is made into
/// a string, the function is called with it, and the string is released.
/// `reply` is the function's answer, or the first failure on the way.
pub open spec fn submitted<B: Backend>(
    engine: B,
    bqn: &str,
    f: Result<u64, Fault>,
    src: Result<u64, Fault>,
    called: Result<u64, Fault>,
    freed: Result<(), Fault>,
    reply: Result<u64, Fault>,
) -> bool {
    &&& evaluator_had(engine, f)
    &&& match f {
        Err(x) => reply == Err::<u64, Fault>(x),
        Ok(fh) => {
            &&& call_ensures(B::bqn_makeUTF8Str, (&engine, bqn), src)
            &&& match src {
                Err(x) => reply == Err::<u64, Fault>(x),
                Ok(s) => {
                    &&& call_ensures(B::bqn_call1, (&engine, fh, s), called)
                    &&& call_ensures(B::bqn_free, (&engine, s), freed)
                    &&& reply == settled(called, freed)
                },
            }
        },
    }
}

/// Reading the flag of an answer: the first element of the answer is
/// picked, read as a number, and released.
pub open spec fn flag_read<'r, B: Backend>(
    answer: BQNValue<'r, B>,
    out: Result<u64, ErrorView>,
) -> bool {
    exists|
        tag: Result<i32, Fault>,
        bound: Result<usize, Fault>,
        element: Result<u64, Fault>,
        picked: Result<u64, ErrorView>,
    |
        #![trigger answer.picked(0, tag, bound, element, picked)]
        answer.picked(0, tag, bound, element, picked) && match picked {
            Err(e) => out == Err::<u64, ErrorView>(e),
            Ok(h) => flag_taken(answer.home(), h, out),
        }
}

/// Reading the number out of the flag with the handle `h`.
pub open spec fn flag_taken<'r, B: Backend>(
    rt: &'r Runtime<B>,
    h: u64,
    out: Result<u64, ErrorView>,
) -> bool {
    exists|
        flag: BQNValue<'r, B>,
        tag: Result<i32, Fault>,
        bits: Result<u64, Fault>,
        freed: Result<(), Fault>,
    |
        #![trigger flag.number_taken(tag, bits, freed, out)]
        flag@ == h && flag.home() == rt && flag.number_taken(tag, bits, freed, out)
}

/// Taking the payload out of an answer: the second element of the answer
/// is picked, and the answer is released.
pub open spec fn payload_taken<'r, B: Backend>(
    answer: BQNValue<'r, B>,
    out: Result<u64, ErrorView>,
) -> bool {
    exists|
        tag: Result<i32, Fault>,
        bound: Result<usize, Fault>,
        element: Result<u64, Fault>,
        freed: Result<(), Fault>,
    |
        #![trigger answer.element_taken(1, tag, bound, element, freed, out)]
        answer.element_taken(1, tag, bound, element, freed, out)
}

/// Reading the words of an error out of the payload with the handle `p`:
/// the payload is read as text, and released.
pub open spec fn words_read<'r, B: Backend>(
    rt: &'r Runtime<B>,
    p: u64,
    out: Result<Seq<char>, ErrorView>,
) -> bool {
    exists|
        payload: BQNValue<'r, B>,
        probe: ArrayProbe,
        codes: Result<Vec<u32>, Fault>,
        freed: Result<(), Fault>,
    |
        #![trigger payload.text_taken(probe, codes, freed, out)]
        payload@ == p && payload.home() == rt && payload.text_taken(probe, codes, freed, out)
}

/// What an answer amounts to, given its flag and its payload.
///
/// With a flag of zero the result is the payload. With any other flag the
/// evaluation failed inside the interpreter: the payload is read as text,
/// and the result is a `CBQN` error that carries the text.
pub open spec fn concluded<'r, B: Backend>(
    rt: &'r Runtime<B>,
    flag: Result<u64, ErrorView>,
    payload: Result<u64, ErrorView>,
    words: Result<Seq<char>, ErrorView>,
    out: Result<u64, ErrorView>,
) -> bool {
    match flag {
        Err(e) => out == Err::<u64, ErrorView>(e),
        Ok(n) => match payload {
            Err(e) => out == Err::<u64, ErrorView>(e),
            Ok(p) => if n == 0 {
                out == Ok::<u64, ErrorView>(p)
            } else {
                &&& words_read(rt, p, words)
                &&& out == match words {
                    Err(e) => Err::<u64, ErrorView>(e),
                    Ok(text) => Err(ErrorView::CBQN(text)),
                }
            },
        },
    }
}

/// Reading an answer: the flag is read, the payload is taken out, and the
/// conclusion is drawn.
pub open spec fn answered<'r, B: Backend>(
    rt: &'r Runtime<B>,
    a: u64,
    out: Result<u64, ErrorView>,
) -> bool {
    exists|
        answer: BQNValue<'r, B>,
        flag: Result<u64, ErrorView>,
        payload: Result<u64, ErrorView>,
        words: Result<Seq<char>, ErrorView>,
    |
        #![trigger concluded(answer.home(), flag, payload, words, out)]
        answer@ == a && answer.home() == rt && flag_read(answer, flag) && payload_taken(
            answer,
            payload,
        ) && concluded(answer.home(), flag, payload, words, out)
}

/// Evaluating source text: the text is handed to the evaluating function,
/// and the function's answer is read.
pub open spec fn evaluated<'r, B: Backend>(
    rt: &'r Runtime<B>,
    bqn: &str,
    f: Result<u64, Fault>,
    src: Result<u64, Fault>,
    called: Result<u64, Fault>,
    freed: Result<(), Fault>,
    reply: Result<u64, Fault>,
    out: Result<u64, ErrorView>,
) -> bool {
    &&& submitted(rt.engine(), bqn, f, src, called, freed, reply)
    &&& match reply {
        Err(x) => out == Err::<u64, ErrorView>(reported(x@)),
        Ok(a) => answered(rt, a, out),
    }
}

/// Evaluating source text with an interpreter that is started if need be.
pub open spec fn started_and_evaluated<'r, B: Backend>(
    rt: &'r Runtime<B>,
    bqn: &str,
    began: Result<(), Fault>,
    f: Result<u64, Fault>,
    src: Result<u64, Fault>,
    called: Result<u64, Fault>,
    freed: Result<(), Fault>,
    reply: Result<u64, Fault>,
    out: Result<u64, ErrorView>,
) -> bool {
    &&& rt.started(began)
    &&& match began {
        Err(x) => out == Err::<u64, ErrorView>(reported(x@)),
        Ok(()) => evaluated(rt, bqn, f, src, called, freed, reply, out),
    }
}

/// Whether a flag says that the evaluation failed: any flag but the bits of
/// zero does.
pub fn is_failure(flag: u64) -> (r: bool)
    ensures
        r == (flag != 0),
{
    flag != 0
}

/// The evaluating function of a runtime, made on first use.
fn evaluator<B: Backend>(rt: &Runtime<B>, backend: &B) -> (r: Result<u64, Fault>)
    requires
        *backend == rt.engine(),
    ensures
        evaluator_had(rt.engine(), r),
{
    match rt.evaluator() {
        Some(f) => Ok(f),
        None => {
            let src = backend.bqn_makeUTF8Str(EVALUATOR);
            let ghost src_seen = src;
            match src {
                Err(x) => {
                    let r: Result<u64, Fault> = Err(x);
                    assert(evaluator_made(rt.engine(), src_seen, Ok(0), Ok(()), r));
                    r
                },
                Ok(s) => {
                    let made = backend.bqn_eval(s);
                    let freed = backend.bqn_free(s);
                    let ghost made_seen = made;
                    let ghost freed_seen = freed;
                    let r = settle(made, freed);
                    assert(evaluator_made(rt.engine(), src_seen, made_seen, freed_seen, r));
                    match &r {
                        Ok(f) => {
                            assert(evaluator_made_by(rt.engine(), *f)) by {
                                assert(r == Ok::<u64, Fault>(*f));
                            }
                            let made = Evaluator { handle: *f, by: Ghost(rt.engine()) };
                            let _ = rt.keep_evaluator(made);
                        },
                        Err(_) => {},
                    }
                    r
                },
            }
        },
    }
}

/// Hands source text to the evaluating function and returns its answer.
fn submit<B: Backend>(rt: &Runtime<B>, backend: &B, bqn: &str) -> (r: Result<u64, Fault>)
    requires
        *backend == rt.engine(),
    ensures
        exists|
            f: Result<u64, Fault>,
            src: Result<u64, Fault>,
            called: Result<u64, Fault>,
            freed: Result<(), Fault>,
        |
            submitted(rt.engine(), bqn, f, src, called, freed, r),
{
    let f = evaluator(rt, backend);
    let ghost f_seen = f;
    match f {
        Err(x) => {
            let r: Result<u64, Fault> = Err(x);
            assert(submitted(rt.engine(), bqn, f_seen, Ok(0), Ok(0), Ok(()), r));
            r
        },
        Ok(fh) => {
            let src = backend.bqn_makeUTF8Str(bqn);
            let ghost src_seen = src;
            match src {
                Err(x) => {
                    let r: Result<u64, Fault> = Err(x);
                    assert(submitted(rt.engine(), bqn, f_seen, src_seen, Ok(0), Ok(()), r));
                    r
                },
                Ok(s) => {
                    let called = backend.bqn_call1(fh, s);
                    let freed = backend.bqn_free(s);
                    let ghost called_seen = called;
                    let ghost freed_seen = freed;
                    let r = settle(called, freed);
                    assert(submitted(rt.engine(), bqn, f_seen, src_seen, called_seen, freed_seen, r));
                    r
                },
            }
        },
    }
}

/// Reads the flag of an answer: its first element, which must be a
/// number.
fn read_flag<'r, B: Backend>(answer: &BQNValue<'r, B>) -> (r: Result<u64, Error>)
    ensures
        flag_read(*answer, outcome(r)),
{
    let picked = answer.pick(0);
    let ghost (tag, bound, element) = choose|
        tag: Result<i32, Fault>,
        bound: Result<usize, Fault>,
        element: Result<u64, Fault>,
    |
        answer.picked(0, tag, bound, element, value_outcome(picked));
    match picked {
        Err(e) => Err(e),
        Ok(flag) => {
            let r = flag.take_number();
            proof {
                let (t, bits, freed) = choose|
                    t: Result<i32, Fault>,
                    bits: Result<u64, Fault>,
                    freed: Result<(), Fault>,
                |
                    flag.number_taken(t, bits, freed, outcome(r));
                assert(flag_taken(answer.home(), flag@, outcome(r)));
            }
            r
        },
    }
}

/// Takes the payload out of an answer, its second element, and releases
/// the answer.
fn take_payload<'r, B: Backend>(answer: BQNValue<'r, B>) -> (r: Result<BQNValue<'r, B>, Error>)
    ensures
        r matches Ok(v) ==> v.home() == answer.home(),
        payload_taken(answer, value_outcome(r)),
{
    answer.take_element(1)
}

/// Reads the words of an error and releases the value that held them.
fn read_words<'r, B: Backend>(payload: BQNValue<'r, B>) -> (r: Result<String, Error>)
    ensures
        words_read(payload.home(), payload@, string_outcome(r)),
{
    payload.take_string()
}

/// Evaluates BQN code with failures caught.
///
/// A script that fails gives a `CBQN` error with the interpreter's own
/// words; a script that runs gives its result.
pub fn backend_eval<'r, B: Backend>(rt: &'r Runtime<B>, bqn: &str) -> (r: Result<
    BQNValue<'r, B>,
    Error,
>)
    ensures
        r matches Ok(v) ==> v.home() == rt,
        exists|
            f: Result<u64, Fault>,
            src: Result<u64, Fault>,
            called: Result<u64, Fault>,
            freed: Result<(), Fault>,
            reply: Result<u64, Fault>,
        |
            evaluated(rt, bqn, f, src, called, freed, reply, value_outcome(r)),
{
    let held = rt.lock();
    let backend = rt.backend(&held);
    let reply = submit(rt, backend, bqn);
    let ghost shown = reply;
    let ghost (f, src, called, freed) = choose|
        f: Result<u64, Fault>,
        src: Result<u64, Fault>,
        called: Result<u64, Fault>,
        freed: Result<(), Fault>,
    |
        submitted(rt.engine(), bqn, f, src, called, freed, reply);
    let answer = match reply {
        Ok(a) => BQNValue::new(rt, a),
        Err(x) => {
            let r: Result<BQNValue<'r, B>, Error> = Err(Error::from_fault(x));
            assert(evaluated(rt, bqn, f, src, called, freed, shown, value_outcome(r)));
            return r;
        },
    };
    let flag = read_flag(&answer);
    let payload = take_payload(answer);
    let ghost flag_seen = outcome(flag);
    let ghost payload_seen = value_outcome(payload);
    let ghost mut words_seen: Result<Seq<char>, ErrorView> = Ok(Seq::empty());
    let r: Result<BQNValue<'r, B>, Error> = match flag {
        Err(e) => {
            match payload {
                Ok(p) => {
                    let _ = p.release();
                },
                Err(_) => {},
            }
            Err(e)
        },
        Ok(n) => match payload {
            Err(e) => Err(e),
            Ok(p) => {
                if !is_failure(n) {
                    Ok(p)
                } else {
                    let words = read_words(p);
                    proof {
                        words_seen = string_outcome(words);
                    }
                    match words {
                        Err(e) => Err(e),
                        Ok(words) => Err(Error::engine(words)),
                    }
                }
            },
        },
    };
    assert(concluded(rt, flag_seen, payload_seen, words_seen, value_outcome(r)));
    assert(answered(rt, answer@, value_outcome(r)));
    assert(evaluated(rt, bqn, f, src, called, freed, shown, value_outcome(r)));
    r
}

/// Evaluates BQN code.
///
/// Starts the interpreter if need be. A script that fails gives a `CBQN`
/// error with the interpreter's own words.
pub fn eval<'r, B: Backend>(rt: &'r Runtime<B>, bqn: &str) -> (r: Result<BQNValue<'r, B>, Error>)
    ensures
        r matches Ok(v) ==> v.home() == rt,
        exists|
            began: Result<(), Fault>,
            f: Result<u64, Fault>,
            src: Result<u64, Fault>,
            called: Result<u64, Fault>,
            freed: Result<(), Fault>,
            reply: Result<u64, Fault>,
        |
            started_and_evaluated(rt, bqn, began, f, src, called, freed, reply, value_outcome(r)),
{
    let _held = rt.lock();
    let began = rt.start_raw();
    match began {
        Ok(()) => {
            let r = backend_eval(rt, bqn);
            proof {
                let (f, src, called, freed, reply) = choose|
                    f: Result<u64, Fault>,
                    src: Result<u64, Fault>,
                    called: Result<u64, Fault>,
                    freed: Result<(), Fault>,
                    reply: Result<u64, Fault>,
                |
                    evaluated(rt, bqn, f, src, called, freed, reply, value_outcome(r));
                assert(started_and_evaluated(
                    rt,
                    bqn,
                    began,
                    f,
                    src,
                    called,
                    freed,
                    reply,
                    value_outcome(r),
                ));
            }
            r
        },
        Err(x) => {
            let r: Result<BQNValue<'r, B>, Error> = Err(Error::from_fault(x));
            assert(started_and_evaluated(
                rt,
                bqn,
                began,
                Ok(0),
                Ok(0),
                Ok(0),
                Ok(()),
                Ok(0),
                value_outcome(r),
            ));
            r
        },
    }
}

/// Calling the function that a piece of code evaluated to with one
/// argument: the function is called with `x`, and released. `function` is
/// what the evaluation gave; `out` is what the call gave, or the first
/// failure on the way.
pub open spec fn applied1<'r, B: Backend>(
    rt: &'r Runtime<B>,
    function: Result<u64, ErrorView>,
    x: u64,
    out: Result<u64, ErrorView>,
) -> bool {
    match function {
        Err(e) => out == Err::<u64, ErrorView>(e),
        Ok(h) => exists|
            f: BQNValue<'r, B>,
            tag: Result<i32, Fault>,
            result: Result<u64, Fault>,
            got: Result<u64, ErrorView>,
            freed: Result<(), Fault>,
            released: Result<(), ErrorView>,
        |
            #![trigger f.called1(x, tag, result, got), f.released(freed, released)]
            f@ == h && f.home() == rt && f.called1(x, tag, result, got) && f.released(
                freed,
                released,
            ) && out == settled(got, released),
    }
}

/// Calling the function that a piece of code evaluated to with two
/// arguments: the function is called with `w` and `x`, and released.
/// `function` is what the evaluation gave; `out` is what the call gave, or
/// the first failure on the way.
pub open spec fn applied2<'r, B: Backend>(
    rt: &'r Runtime<B>,
    function: Result<u64, ErrorView>,
    w: u64,
    x: u64,
    out: Result<u64, ErrorView>,
) -> bool {
    match function {
        Err(e) => out == Err::<u64, ErrorView>(e),
        Ok(h) => exists|
            f: BQNValue<'r, B>,
            tag: Result<i32, Fault>,
            result: Result<u64, Fault>,
            got: Result<u64, ErrorView>,
            freed: Result<(), Fault>,
            released: Result<(), ErrorView>,
        |
            #![trigger f.called2(w, x, tag, result, got), f.released(freed, released)]
            f@ == h && f.home() == rt && f.called2(w, x, tag, result, got) && f.released(
                freed,
                released,
            ) && out == settled(got, released),
    }
}

/// Combines the result of a call with that of releasing the function that
/// was called. If the function cannot be released, the result is released
/// again.
fn after_call<'r, B: Backend>(
    called: Result<BQNValue<'r, B>, Error>,
    released: Result<(), Error>,
) -> (r: Result<BQNValue<'r, B>, Error>)
    ensures
        r matches Ok(v) ==> called matches Ok(c) && v.home() == c.home(),
        value_outcome(r) == settled(value_outcome(called), outcome(released)),
{
    match called {
        Err(e) => Err(e),
        Ok(v) => match released {
            Ok(()) => Ok(v),
            Err(e) => {
                let _ = v.release();
                Err(e)
            },
        },
    }
}

/// Evaluates BQN code to a function and calls it with one argument.
///
/// Fails as [`eval`] does if the code cannot be evaluated, and else only if
/// the backend does.
pub fn eval_call1<'r, B: Backend>(rt: &'r Runtime<B>, code: &str, x: &BQNValue<'r, B>) -> (r:
    Result<BQNValue<'r, B>, Error>)
    ensures
        r matches Ok(v) ==> v.home() == rt,
        exists|
            began: Result<(), Fault>,
            f: Result<u64, Fault>,
            src: Result<u64, Fault>,
            called: Result<u64, Fault>,
            freed: Result<(), Fault>,
            reply: Result<u64, Fault>,
            function: Result<u64, ErrorView>,
        |
            #![trigger started_and_evaluated(rt, code, began, f, src, called, freed, reply, function)]
            started_and_evaluated(rt, code, began, f, src, called, freed, reply, function)
                && applied1(rt, function, x@, value_outcome(r)),
{
    let function = eval(rt, code);
    let ghost function_seen = value_outcome(function);
    match function {
        Err(e) => {
            let r: Result<BQNValue<'r, B>, Error> = Err(e);
            assert(applied1(rt, function_seen, x@, value_outcome(r)));
            r
        },
        Ok(f) => {
            let called = f.call1(x);
            let ghost (tag, result) = choose|tag: Result<i32, Fault>, result: Result<u64, Fault>|
                f.called1(x@, tag, result, value_outcome(called));
            let ghost got = value_outcome(called);
            let released = f.release();
            let ghost freed = choose|freed: Result<(), Fault>| f.released(freed, outcome(released));
            let ghost let_go = outcome(released);
            let r = after_call(called, released);
            assert(f.called1(x@, tag, result, got) && f.released(freed, let_go));
            assert(applied1(rt, function_seen, x@, value_outcome(r)));
            r
        },
    }
}

/// Evaluates BQN code to a function and calls it with two arguments.
///
/// Fails as [`eval`] does if the code cannot be evaluated, and else only if
/// the backend does.
pub fn eval_call2<'r, B: Backend>(
    rt: &'r Runtime<B>,
    w: &BQNValue<'r, B>,
    code: &str,
    x: &BQNValue<'r, B>,
) -> (r: Result<BQNValue<'r, B>, Error>)
    ensures
        r matches Ok(v) ==> v.home() == rt,
        exists|
            began: Result<(), Fault>,
            f: Result<u64, Fault>,
            src: Result<u64, Fault>,
            called: Result<u64, Fault>,
            freed: Result<(), Fault>,
            reply: Result<u64, Fault>,
            function: Result<u64, ErrorView>,
        |
            #![trigger started_and_evaluated(rt, code, began, f, src, called, freed, reply, function)]
            started_and_evaluated(rt, code, began, f, src, called, freed, reply, function)
                && applied2(rt, function, w@, x@, value_outcome(r)),
{
    let function = eval(rt, code);
    let ghost function_seen = value_outcome(function);
    match function {
        Err(e) => {
            let r: Result<BQNValue<'r, B>, Error> = Err(e);
            assert(applied2(rt, function_seen, w@, x@, value_outcome(r)));
            r
        },
        Ok(f) => {
            let called = f.call2(w, x);
            let ghost (tag, result) = choose|tag: Result<i32, Fault>, result: Result<u64, Fault>|
                f.called2(w@, x@, tag, result, value_outcome(called));
            let ghost got = value_outcome(called);
            let released = f.release();
            let ghost freed = choose|freed: Result<(), Fault>| f.released(freed, outcome(released));
            let ghost let_go = outcome(released);
            let r = after_call(called, released);
            assert(f.called2(w@, x@, tag, result, got) && f.released(freed, let_go));
            assert(applied2(rt, function_seen, w@, x@, value_outcome(r)));
            r
        },
    }
}

/// The source that evaluates to the interpreter's formatter.
pub const FORMATTER: &'static str = "•Fmt";

/// Reading what the formatter gave: `formatted` is what its call gave; its
/// answer is read as text and released.
pub open spec fn formatted_with<'r, B: Backend>(
    rt: &'r Runtime<B>,
    formatted: Result<u64, ErrorView>,
    out: Result<Seq<char>, ErrorView>,
) -> bool {
    match formatted {
        Err(e) => out == Err::<Seq<char>, ErrorView>(e),
        Ok(h) => words_read(rt, h, out),
    }
}

/// Rendering a value: the formatter is evaluated and called with the
/// value, and its answer is read as text.
pub open spec fn rendered<'r, B: Backend>(
    v: BQNValue<'r, B>,
    began: Result<(), Fault>,
    f: Result<u64, Fault>,
    src: Result<u64, Fault>,
    called: Result<u64, Fault>,
    freed: Result<(), Fault>,
    reply: Result<u64, Fault>,
    function: Result<u64, ErrorView>,
    formatted: Result<u64, ErrorView>,
    out: Result<Seq<char>, ErrorView>,
) -> bool {
    &&& started_and_evaluated(v.home(), FORMATTER, began, f, src, called, freed, reply, function)
    &&& applied1(v.home(), function, v@, formatted)
    &&& formatted_with(v.home(), formatted, out)
}

impl<'r, B: Backend> BQNValue<'r, B> {
    /// The interpreter's own rendering of the value, as its formatter
    /// `•Fmt` gives it.
    ///
    /// Fails as [`eval_call1`] does if the formatter cannot be had or run,
    /// and as [`BQNValue::to_string`] does if its answer is no string.
    pub fn fmt(&self) -> (r: Result<String, Error>)
        ensures
            exists|
                began: Result<(), Fault>,
                f: Result<u64, Fault>,
                src: Result<u64, Fault>,
                called: Result<u64, Fault>,
                freed: Result<(), Fault>,
                reply: Result<u64, Fault>,
                function: Result<u64, ErrorView>,
                formatted: Result<u64, ErrorView>,
            |
                rendered(
                    *self,
                    began,
                    f,
                    src,
                    called,
                    freed,
                    reply,
                    function,
                    formatted,
                    string_outcome(r),
                ),
    {
        let formatted = eval_call1(self.runtime(), FORMATTER, self);
        let ghost seen = value_outcome(formatted);
        let ghost (began, f, src, called, freed, reply, function) = choose|
            began: Result<(), Fault>,
            f: Result<u64, Fault>,
            src: Result<u64, Fault>,
            called: Result<u64, Fault>,
            freed: Result<(), Fault>,
            reply: Result<u64, Fault>,
            function: Result<u64, ErrorView>,
        |
            #![trigger started_and_evaluated(self.home(), FORMATTER, began, f, src, called, freed, reply, function)]
            started_and_evaluated(self.home(), FORMATTER, began, f, src, called, freed, reply, function)
                && applied1(self.home(), function, self@, seen);
        let r: Result<String, Error> = match formatted {
            Err(e) => Err(e),
            Ok(formatted) => read_words(formatted),
        };
        assert(rendered(
            *self,
            began,
            f,
            src,
            called,
            freed,
            reply,
            function,
            seen,
            string_outcome(r),
        ));
        r
    }
}

} // verus!
