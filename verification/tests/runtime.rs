//! The handles at work against a small stand-in for the runtime, which keeps
//! interpreters and values in tables and records every call made to it.

use rusty_tcl::ffi::{Call, Reply, TCL_ERROR, TCL_LEAVE_ERR_MSG, TCL_OK};
use rusty_tcl::init::InitGuard;
use rusty_tcl::task::{Output, Step};
use rusty_tcl::{TclError, TclInterp, TclObj};
use std::collections::HashMap;

struct FakeObj {
    ref_count: i32,
    text: Vec<u8>,
}

struct FakeInterp {
    safe: bool,
    vars: HashMap<Vec<u8>, Vec<u8>>,
    result: usize,
}

struct FakeTcl {
    next_address: usize,
    objs: HashMap<usize, FakeObj>,
    interps: HashMap<usize, FakeInterp>,
    executable: Option<Vec<u8>>,
    out_of_memory: bool,
    init_status: i32,
    string_result: Option<Option<Vec<u8>>>,
    calls: Vec<Call>,
    freed: Vec<usize>,
    deleted: Vec<usize>,
}

impl FakeTcl {
    fn new() -> FakeTcl {
        FakeTcl {
            next_address: 0x1000,
            objs: HashMap::new(),
            interps: HashMap::new(),
            executable: None,
            out_of_memory: false,
            init_status: TCL_OK,
            string_result: None,
            calls: Vec::new(),
            freed: Vec::new(),
            deleted: Vec::new(),
        }
    }

    fn new_obj(&mut self, text: &[u8]) -> usize {
        let address = self.next_address;
        self.next_address += 0x10;
        self.objs.insert(address, FakeObj { ref_count: 0, text: text.to_vec() });
        address
    }

    /// Makes `text` the result of the interpreter, as the runtime does: the
    /// interpreter keeps a reference of its own to its result.
    fn set_result(&mut self, interp: usize, text: &[u8]) {
        let old = self.interps[&interp].result;
        if old != 0 {
            let gone = {
                let obj = self.objs.get_mut(&old).unwrap();
                obj.ref_count -= 1;
                obj.ref_count <= 0
            };
            if gone {
                self.objs.remove(&old);
            }
        }
        let address = self.new_obj(text);
        self.objs.get_mut(&address).unwrap().ref_count = 1;
        self.interps.get_mut(&interp).unwrap().result = address;
    }

    /// Knows the few scripts that the tests use.
    fn eval(&mut self, interp: usize, script: &[u8]) -> i32 {
        match script {
            b"expr {2 + 2}" => {
                self.set_result(interp, b"4");
                TCL_OK
            }
            b"return $x" => match self.interps[&interp].vars.get(&b"x".to_vec()).cloned() {
                Some(value) => {
                    self.set_result(interp, &value);
                    TCL_OK
                }
                None => {
                    self.set_result(interp, b"can't read \"x\": no such variable");
                    TCL_ERROR
                }
            },
            b"break" => {
                self.set_result(interp, b"");
                3
            }
            _ => {
                self.set_result(interp, b"missing close-brace");
                TCL_ERROR
            }
        }
    }

    fn perform(&mut self, call: &Call) -> Reply {
        self.calls.push(call.clone());
        match call {
            Call::ProgramName => Reply::Text(Some(b"/usr/bin/tests".to_vec())),
            Call::FindExecutable(name) => {
                self.executable = Some(name.clone());
                Reply::Nothing
            }
            Call::GetNameOfExecutable => Reply::Text(self.executable.clone()),
            Call::CreateInterp => {
                if self.out_of_memory {
                    return Reply::Pointer(0);
                }
                let address = self.next_address;
                self.next_address += 0x10;
                self.interps
                    .insert(address, FakeInterp { safe: false, vars: HashMap::new(), result: 0 });
                self.set_result(address, b"");
                Reply::Pointer(address)
            }
            Call::DeleteInterp(interp) => {
                self.interps.remove(interp).unwrap();
                self.deleted.push(*interp);
                Reply::Nothing
            }
            Call::Init(interp) => {
                if self.init_status == TCL_ERROR {
                    self.set_result(*interp, b"can't find a usable init.tcl");
                }
                Reply::Int(self.init_status)
            }
            Call::Eval { interp, script } => Reply::Int(self.eval(*interp, script)),
            Call::GetStringResult(interp) => match &self.string_result {
                Some(forced) => Reply::Text(forced.clone()),
                None => {
                    let result = self.interps[interp].result;
                    Reply::Text(Some(self.objs[&result].text.clone()))
                }
            },
            Call::GetObjResult(interp) => Reply::Pointer(self.interps[interp].result),
            Call::MakeSafe(interp) => {
                self.interps.get_mut(interp).unwrap().safe = true;
                Reply::Int(TCL_OK)
            }
            Call::IsSafe(interp) => Reply::Int(if self.interps[interp].safe { 1 } else { 0 }),
            Call::SetVar { interp, name, value, flags } => {
                assert_eq!(*flags, TCL_LEAVE_ERR_MSG);
                if name.is_empty() || name.ends_with(b")") && !name.contains(&b'(') {
                    self.set_result(*interp, b"can't set variable");
                    return Reply::Text(None);
                }
                self.interps.get_mut(interp).unwrap().vars.insert(name.clone(), value.clone());
                Reply::Text(Some(value.clone()))
            }
            Call::NewObj => {
                if self.out_of_memory {
                    return Reply::Pointer(0);
                }
                Reply::Pointer(self.new_obj(b""))
            }
            Call::FreeObj(obj) => {
                self.objs.remove(obj).unwrap();
                self.freed.push(*obj);
                Reply::Nothing
            }
            Call::GetStringFromObj(obj) => Reply::Text(Some(self.objs[obj].text.clone())),
            Call::RefCount(obj) => Reply::Int(self.objs[obj].ref_count),
            Call::SetRefCount { obj, count } => {
                self.objs.get_mut(obj).unwrap().ref_count = *count;
                Reply::Nothing
            }
        }
    }

    fn count_of(&self, call: &Call) -> usize {
        self.calls.iter().filter(|made| *made == call).count()
    }
}

/// Carries an operation through: every call goes to the stand-in, and its
/// reply back to the task, until the operation is over.
fn drive(tcl: &mut FakeTcl, first: Step) -> Result<Output, TclError> {
    let mut step = first;
    loop {
        match step {
            Step::Done(outcome) => return outcome,
            Step::Ask(call, task) => {
                let reply = tcl.perform(&call);
                assert!(task.accepts(&reply));
                step = task.resume(reply);
            }
        }
    }
}

fn new_interp(tcl: &mut FakeTcl, guard: &mut InitGuard) -> Result<TclInterp, TclError> {
    match drive(tcl, TclInterp::new(guard))? {
        Output::Interp(interp) => Ok(interp),
        other => panic!("not an interpreter: {:?}", other),
    }
}

fn new_obj(tcl: &mut FakeTcl, guard: &mut InitGuard) -> Result<TclObj, TclError> {
    obj_of(drive(tcl, TclObj::new(guard)))
}

fn obj_of(outcome: Result<Output, TclError>) -> Result<TclObj, TclError> {
    match outcome? {
        Output::Obj(obj) => Ok(obj),
        other => panic!("not a value: {:?}", other),
    }
}

fn flag_of(outcome: Result<Output, TclError>) -> bool {
    match outcome {
        Ok(Output::Flag(flag)) => flag,
        other => panic!("not a flag: {:?}", other),
    }
}

fn to_string(tcl: &mut FakeTcl, obj: &TclObj) -> String {
    match drive(tcl, obj.render()) {
        Ok(Output::Text(text)) => text,
        other => panic!("not text: {:?}", other),
    }
}

fn is_shared(tcl: &mut FakeTcl, obj: &TclObj) -> bool {
    flag_of(drive(tcl, obj.is_shared()))
}

fn duplicate(tcl: &mut FakeTcl, obj: &TclObj) -> TclObj {
    obj_of(drive(tcl, obj.duplicate())).unwrap()
}

fn release(tcl: &mut FakeTcl, obj: TclObj) -> bool {
    flag_of(drive(tcl, obj.release()))
}

fn eval_in(tcl: &mut FakeTcl, interp: &mut TclInterp, code: &str) -> Result<TclObj, TclError> {
    obj_of(drive(tcl, interp.eval(code)))
}

fn set_var_in(
    tcl: &mut FakeTcl,
    interp: &mut TclInterp,
    name: &[u8],
    value: &[u8],
) -> Result<Vec<u8>, TclError> {
    match drive(tcl, interp.set_var(name.to_vec(), value.to_vec()))? {
        Output::Bytes(stored) => Ok(stored),
        other => panic!("not a string: {:?}", other),
    }
}

#[test]
fn eval() {
    let mut tcl = FakeTcl::new();
    let mut guard = InitGuard::new();
    let mut interp = new_interp(&mut tcl, &mut guard).unwrap();

    let result = eval_in(&mut tcl, &mut interp, "expr {2 + 2}").unwrap();
    assert_eq!(to_string(&mut tcl, &result), "4");
}

#[test]
fn set_var() {
    let mut tcl = FakeTcl::new();
    let mut guard = InitGuard::new();
    let mut interp = new_interp(&mut tcl, &mut guard).unwrap();

    set_var_in(&mut tcl, &mut interp, b"x", b"5").unwrap();
    let result = eval_in(&mut tcl, &mut interp, "return $x").unwrap();
    assert_eq!(to_string(&mut tcl, &result), "5");
}

#[test]
fn safety() {
    let mut tcl = FakeTcl::new();
    let mut guard = InitGuard::new();
    let mut interp = new_interp(&mut tcl, &mut guard).unwrap();
    assert!(matches!(drive(&mut tcl, interp.make_safe()), Ok(Output::Unit)));
    assert!(flag_of(drive(&mut tcl, interp.is_safe())));
}

#[test]
fn should_share_on_clone() {
    let mut tcl = FakeTcl::new();
    let mut guard = InitGuard::new();
    let obj1 = new_obj(&mut tcl, &mut guard).unwrap();
    assert!(!is_shared(&mut tcl, &obj1));

    {
        let obj2 = duplicate(&mut tcl, &obj1);
        assert!(is_shared(&mut tcl, &obj1));
        assert!(is_shared(&mut tcl, &obj2));
        assert_eq!(obj1.as_ptr(), obj2.as_ptr());
        assert_eq!(obj1, obj2);
        release(&mut tcl, obj2);
    }

    assert!(!is_shared(&mut tcl, &obj1));
}

#[test]
fn fresh_interp_is_not_safe() {
    let mut tcl = FakeTcl::new();
    let mut guard = InitGuard::new();
    let interp = new_interp(&mut tcl, &mut guard).unwrap();
    assert!(!flag_of(drive(&mut tcl, interp.is_safe())));
}

#[test]
fn set_var_returns_what_the_runtime_stored() {
    let mut tcl = FakeTcl::new();
    let mut guard = InitGuard::new();
    let mut interp = new_interp(&mut tcl, &mut guard).unwrap();
    assert_eq!(set_var_in(&mut tcl, &mut interp, b"x", b"5").unwrap(), b"5".to_vec());
    let address = interp.as_ptr();
    assert_eq!(
        tcl.calls.last(),
        Some(&Call::SetVar {
            interp: address,
            name: b"x".to_vec(),
            value: b"5".to_vec(),
            flags: 0x200
        })
    );
}

#[test]
fn invalid_code_is_an_internal_error_and_the_interp_stays_usable() {
    let mut tcl = FakeTcl::new();
    let mut guard = InitGuard::new();
    let mut interp = new_interp(&mut tcl, &mut guard).unwrap();

    match eval_in(&mut tcl, &mut interp, "expr {") {
        Err(TclError::InternalError(message)) => {
            assert!(!message.is_empty());
            assert_eq!(message, "missing close-brace");
        }
        other => panic!("not an internal error: {:?}", other),
    }

    let result = eval_in(&mut tcl, &mut interp, "expr {2 + 2}").unwrap();
    assert_eq!(to_string(&mut tcl, &result), "4");
}

#[test]
fn new_obj_renders_as_the_empty_string() {
    let mut tcl = FakeTcl::new();
    let mut guard = InitGuard::new();
    let obj = new_obj(&mut tcl, &mut guard).unwrap();
    assert_eq!(to_string(&mut tcl, &obj), "");
}

#[test]
fn ref_count_is_the_number_of_live_handles() {
    let mut tcl = FakeTcl::new();
    let mut guard = InitGuard::new();
    let first = new_obj(&mut tcl, &mut guard).unwrap();
    let address = first.as_ptr();
    assert_eq!(tcl.objs[&address].ref_count, 1);

    let second = duplicate(&mut tcl, &first);
    let third = duplicate(&mut tcl, &second);
    assert_eq!(tcl.objs[&address].ref_count, 3);

    assert!(!release(&mut tcl, second));
    assert_eq!(tcl.objs[&address].ref_count, 2);
    let fourth = duplicate(&mut tcl, &third);
    assert_eq!(tcl.objs[&address].ref_count, 3);

    assert!(!release(&mut tcl, first));
    assert!(!release(&mut tcl, fourth));
    assert_eq!(tcl.objs[&address].ref_count, 1);
    assert!(tcl.freed.is_empty());

    assert!(release(&mut tcl, third));
    assert_eq!(tcl.freed, vec![address]);
    assert_eq!(tcl.count_of(&Call::FreeObj(address)), 1);
    assert_eq!(tcl.calls.last(), Some(&Call::FreeObj(address)));
}

#[test]
fn is_shared_exactly_while_another_handle_lives() {
    let mut tcl = FakeTcl::new();
    let mut guard = InitGuard::new();
    let first = new_obj(&mut tcl, &mut guard).unwrap();
    assert!(!is_shared(&mut tcl, &first));
    let second = duplicate(&mut tcl, &first);
    let third = duplicate(&mut tcl, &first);
    assert!(is_shared(&mut tcl, &first));
    release(&mut tcl, second);
    assert!(is_shared(&mut tcl, &first));
    assert!(is_shared(&mut tcl, &third));
    release(&mut tcl, first);
    assert!(!is_shared(&mut tcl, &third));
}

#[test]
fn result_of_the_interp_is_shared_with_the_interp() {
    let mut tcl = FakeTcl::new();
    let mut guard = InitGuard::new();
    let mut interp = new_interp(&mut tcl, &mut guard).unwrap();
    let result = eval_in(&mut tcl, &mut interp, "expr {2 + 2}").unwrap();
    assert_eq!(tcl.objs[&result.as_ptr()].ref_count, 2);
    assert!(is_shared(&mut tcl, &result));
    assert!(!release(&mut tcl, result));
    assert!(tcl.freed.is_empty());
}

#[test]
fn runtime_is_made_ready_once() {
    let mut tcl = FakeTcl::new();
    let mut guard = InitGuard::new();
    assert!(!guard.is_initialized());

    let first = new_interp(&mut tcl, &mut guard).unwrap();
    assert!(guard.is_initialized());
    assert_eq!(
        tcl.calls,
        vec![
            Call::ProgramName,
            Call::FindExecutable(b"/usr/bin/tests".to_vec()),
            Call::GetNameOfExecutable,
            Call::CreateInterp,
            Call::Init(first.as_ptr()),
        ]
    );

    let second = new_interp(&mut tcl, &mut guard).unwrap();
    let obj = new_obj(&mut tcl, &mut guard).unwrap();
    let attached = obj_of(drive(&mut tcl, TclObj::from_ptr(&mut guard, obj.as_ptr()))).unwrap();
    assert_ne!(first.as_ptr(), second.as_ptr());
    assert_eq!(attached, obj);
    assert_eq!(tcl.count_of(&Call::ProgramName), 1);
    assert_eq!(tcl.count_of(&Call::FindExecutable(b"/usr/bin/tests".to_vec())), 1);
    assert_eq!(tcl.count_of(&Call::GetNameOfExecutable), 1);
}

#[test]
fn new_obj_makes_the_runtime_ready_first() {
    let mut tcl = FakeTcl::new();
    let mut guard = InitGuard::new();
    let obj = new_obj(&mut tcl, &mut guard).unwrap();
    let address = obj.as_ptr();
    assert_eq!(
        tcl.calls,
        vec![
            Call::ProgramName,
            Call::FindExecutable(b"/usr/bin/tests".to_vec()),
            Call::GetNameOfExecutable,
            Call::NewObj,
            Call::RefCount(address),
            Call::SetRefCount { obj: address, count: 1 },
        ]
    );
}

#[test]
fn from_ptr_refuses_null_after_making_the_runtime_ready() {
    let mut tcl = FakeTcl::new();
    let mut guard = InitGuard::new();
    let outcome = drive(&mut tcl, TclObj::from_ptr(&mut guard, 0));
    assert!(matches!(outcome, Err(TclError::NullPointer)));
    assert_eq!(
        tcl.calls,
        vec![
            Call::ProgramName,
            Call::FindExecutable(b"/usr/bin/tests".to_vec()),
            Call::GetNameOfExecutable,
        ]
    );
    assert!(matches!(TclObj::from_ptr(&mut guard, 0), Step::Done(Err(TclError::NullPointer))));
}

#[test]
fn new_interp_without_memory_is_a_null_pointer() {
    let mut tcl = FakeTcl::new();
    tcl.out_of_memory = true;
    let mut guard = InitGuard::new();
    assert!(matches!(new_interp(&mut tcl, &mut guard), Err(TclError::NullPointer)));
    assert!(matches!(new_obj(&mut tcl, &mut guard), Err(TclError::NullPointer)));
    assert!(tcl.deleted.is_empty());
}

#[test]
fn interp_that_cannot_be_set_up_is_deleted() {
    let mut tcl = FakeTcl::new();
    tcl.init_status = TCL_ERROR;
    let mut guard = InitGuard::new();
    match new_interp(&mut tcl, &mut guard) {
        Err(TclError::InternalError(message)) => {
            assert_eq!(message, "can't find a usable init.tcl")
        }
        other => panic!("not an internal error: {:?}", other),
    }
    assert_eq!(tcl.deleted.len(), 1);
    let interp = tcl.deleted[0];
    let n = tcl.calls.len();
    assert_eq!(
        tcl.calls[n - 3..],
        [Call::Init(interp), Call::GetStringResult(interp), Call::DeleteInterp(interp)]
    );
    assert!(tcl.interps.is_empty());
}

#[test]
fn message_that_cannot_be_read_takes_the_place_of_the_error() {
    let mut tcl = FakeTcl::new();
    let mut guard = InitGuard::new();
    let mut interp = new_interp(&mut tcl, &mut guard).unwrap();

    tcl.string_result = Some(None);
    assert!(matches!(eval_in(&mut tcl, &mut interp, "expr {"), Err(TclError::NullPointer)));
    tcl.string_result = Some(Some(vec![0xff, 0xfe]));
    assert!(matches!(eval_in(&mut tcl, &mut interp, "expr {"), Err(TclError::InvalidUtf8)));
    assert!(matches!(
        set_var_in(&mut tcl, &mut interp, b"", b"1"),
        Err(TclError::InvalidUtf8)
    ));
}

#[test]
fn set_var_that_fails_reports_the_message_of_the_runtime() {
    let mut tcl = FakeTcl::new();
    let mut guard = InitGuard::new();
    let mut interp = new_interp(&mut tcl, &mut guard).unwrap();
    match set_var_in(&mut tcl, &mut interp, b"", b"1") {
        Err(TclError::InternalError(message)) => assert_eq!(message, "can't set variable"),
        other => panic!("not an internal error: {:?}", other),
    }
}

#[test]
fn nul_bytes_are_refused_before_any_call() {
    let mut tcl = FakeTcl::new();
    let mut guard = InitGuard::new();
    let mut interp = new_interp(&mut tcl, &mut guard).unwrap();
    let calls_before = tcl.calls.len();

    match interp.eval("expr {1}\0 + 1") {
        Step::Done(Err(TclError::NulBytes(code))) => assert_eq!(code, "expr {1}\0 + 1"),
        _ => panic!("the script was not refused"),
    }
    match interp.set_var(b"a\0b".to_vec(), b"1".to_vec()) {
        Step::Done(Err(TclError::NulBytes(name))) => assert_eq!(name, "a\0b"),
        _ => panic!("the name was not refused"),
    }
    match interp.set_var(b"a".to_vec(), b"\0".to_vec()) {
        Step::Done(Err(TclError::NulBytes(value))) => assert_eq!(value, "\0"),
        _ => panic!("the value was not refused"),
    }
    match interp.set_var(b"a\0".to_vec(), b"\xff\0".to_vec()) {
        Step::Done(Err(TclError::NulBytes(name))) => assert_eq!(name, "a\0"),
        _ => panic!("the name was not refused first"),
    }
    assert!(matches!(
        interp.set_var(b"\xff\0".to_vec(), b"1".to_vec()),
        Step::Done(Err(TclError::InvalidUtf8))
    ));
    assert!(matches!(
        interp.set_var(b"a".to_vec(), b"\xc3\0".to_vec()),
        Step::Done(Err(TclError::InvalidUtf8))
    ));
    assert_eq!(tcl.calls.len(), calls_before);
}

#[test]
fn status_other_than_error_lets_eval_go_on() {
    let mut tcl = FakeTcl::new();
    let mut guard = InitGuard::new();
    let mut interp = new_interp(&mut tcl, &mut guard).unwrap();
    let result = eval_in(&mut tcl, &mut interp, "break").unwrap();
    assert_eq!(to_string(&mut tcl, &result), "");
}

#[test]
fn string_and_object_result_of_an_interp() {
    let mut tcl = FakeTcl::new();
    let mut guard = InitGuard::new();
    let mut interp = new_interp(&mut tcl, &mut guard).unwrap();
    let first = eval_in(&mut tcl, &mut interp, "expr {2 + 2}").unwrap();

    match drive(&mut tcl, interp.get_string_result()) {
        Ok(Output::Text(text)) => assert_eq!(text, "4"),
        other => panic!("not text: {:?}", other),
    }
    let second = obj_of(drive(&mut tcl, interp.get_object_result())).unwrap();
    assert_eq!(first, second);
    assert_eq!(tcl.objs[&first.as_ptr()].ref_count, 3);

    tcl.string_result = Some(None);
    assert!(matches!(drive(&mut tcl, interp.get_string_result()), Err(TclError::NullPointer)));
    tcl.string_result = Some(Some(vec![b'a', 0x80]));
    assert!(matches!(drive(&mut tcl, interp.get_string_result()), Err(TclError::InvalidUtf8)));
}

#[test]
fn delete_gives_the_interp_back() {
    let mut tcl = FakeTcl::new();
    let mut guard = InitGuard::new();
    let interp = new_interp(&mut tcl, &mut guard).unwrap();
    let address = interp.as_ptr();
    assert!(matches!(drive(&mut tcl, interp.delete()), Ok(Output::Unit)));
    assert_eq!(tcl.deleted, vec![address]);
    assert_eq!(tcl.calls.last(), Some(&Call::DeleteInterp(address)));
}
