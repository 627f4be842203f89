//! Calls and clones, end to end: the processes and the native libraries are
//! played by a simple stand-in, everything else is the library.
#![allow(non_snake_case)]

use chillffi::errors::{ErrorKind, FFIError, IoError};
use chillffi::ffi::library::{Library, PendingCall};
use chillffi::ffi::session::{lastErrno, lastOsError, sendRawRequest, Runtime, ThreadState};
use chillffi::ffi::types::{CText, FfiPrimitive, Pointer, StructValue, Type, Value, F64};
use chillffi::limits::OsProcessLimits;
use chillffi::platform::ipc::{checkRequest, FFIRequest, FFIResponse};
use chillffi::platform::transport::Bootstrap;
use chillffi::setupZygote;
use chillffi::stats::{activeClones, zygotesAlive};
use chillffi::zygote::{CloneAttempt, ClonedZygote, Pool, ZygoteGuard, ZygoteStack};
use std::collections::HashMap;

const LibmPath: &str = "libm.so.6";
const LibcPath: &str = "libc.so.6";
const NoCaps: OsProcessLimits = OsProcessLimits { userSoft: None, userHard: None, systemHard: None };

/// `ENOENT`.
const NoSuchFile: i32 = 2;

/// A native process: its memory, and whether it has crashed.
struct Process {
    memory: HashMap<usize, Vec<u8>>,
    dead: bool,
}

/// A Runtime with one thread, and the processes that it thinks it talks to.
struct World {
    runtime: Runtime,
    thread: ThreadState,
    pool: Pool<()>,
    stack: ZygoteStack<u32, u32>,
    processes: HashMap<u32, Process>,
    nextPid: u32,
    sent: usize,
}

impl World {
    fn bare() -> World {
        World {
            runtime: Runtime::new(),
            thread: ThreadState::new(),
            pool: Pool::new(),
            stack: ZygoteStack::new(),
            processes: HashMap::new(),
            nextPid: 100,
            sent: 0,
        }
    }

    fn new() -> World {
        let mut world = World::bare();
        setupZygote(&mut world.runtime, &mut world.pool, Ok((77, ()))).expect("setup failed");
        world
    }

    fn clone(&mut self) -> Result<ClonedZygote<u32, u32>, IoError> {
        let attempt = ClonedZygote::<u32, u32>::getMeClone(&mut self.pool, NoCaps);
        match attempt {
            CloneAttempt::Full => panic!("no slot is free, and nobody will give one back"),
            CloneAttempt::Refused(error) => Err(error),
            CloneAttempt::Granted(pending) => {
                let pid = self.nextPid;
                self.nextPid += 1;
                self.processes.insert(pid, Process { memory: HashMap::new(), dead: false });
                pending.complete(
                    &mut self.pool,
                    Ok(Bootstrap { pid, requestTx: pid, responseRx: pid }),
                )
            }
        }
    }

    fn end(&mut self, clone: ClonedZygote<u32, u32>) {
        let ending = clone.drop(&mut self.pool);
        self.processes.remove(&ending.pid()).expect("no such process");
        ending.killed(&mut self.pool);
    }

    fn enter(&mut self) -> ZygoteGuard {
        let clone = self.clone().expect("no clone");
        ZygoteGuard::enter(&mut self.stack, &mut self.thread, clone)
    }

    fn leave(&mut self, guard: ZygoteGuard) {
        let clone = guard.drop(&mut self.stack, &mut self.thread).expect("an empty stack");
        self.end(clone);
    }

    /// Sends the request to the clone of the thread and waits for its answer.
    fn perform(&mut self, request: &FFIRequest) -> Result<FFIResponse, String> {
        self.sent += 1;
        let clone = self.stack.active().expect("no clone serves this thread");
        let process = self.processes.get_mut(&clone.pid).expect("no such process");
        if process.dead {
            return match clone.call(Err("broken pipe".to_string())) {
                Ok(_) => panic!("a request was sent to a dead process"),
                Err(message) => Err(message),
            };
        }
        let awaited = clone.call(Ok(()))?;
        awaited.complete(clone, answer(process, request))
    }

    /// Finalizes and performs a typed call.
    fn run<T: FfiPrimitive>(&mut self, call: Result<PendingCall<T>, FFIError>) -> Result<T, FFIError> {
        let call = call?;
        let outcome = self.perform(&call.pending.request);
        call.complete(&mut self.thread, outcome)
    }

    fn raw(&mut self, request: FFIRequest) -> Result<Value, FFIError> {
        let pending = sendRawRequest(&mut self.runtime, &mut self.thread, None, request)?;
        let outcome = self.perform(&pending.request);
        pending.complete(&mut self.thread, outcome)
    }

    fn allocate(&mut self, length: usize) -> Pointer {
        match self.raw(FFIRequest::Alloc { length }) {
            Ok(Value::Pointer(address)) => Pointer(address),
            other => panic!("unexpected answer: {other:?}"),
        }
    }

    fn read(&mut self, address: Pointer, length: usize) -> Vec<u8> {
        match self.raw(FFIRequest::ReadMemory { address: address.0, length }) {
            Ok(Value::RawString(bytes)) => bytes,
            other => panic!("unexpected answer: {other:?}"),
        }
    }

    fn sqrt(&mut self, input: f64) -> Result<f64, FFIError> {
        let libm = Library::load(&mut self.runtime.registry, LibmPath);
        let call = libm
            .call("sqrt")
            .arg(F64(input.to_bits()))
            .result::<F64>(&mut self.runtime, &mut self.thread, None);
        let result = self.run(call);
        libm.drop(&mut self.runtime.registry);
        result.map(|value| f64::from_bits(value.0))
    }
}

/// What the native side does with a request.
fn answer(process: &mut Process, request: &FFIRequest) -> Result<FFIResponse, String> {
    if let Err(error) = checkRequest(request) {
        return Ok(FFIResponse::Failed(error));
    }
    match request {
        FFIRequest::Alloc { length } => {
            let address = 4096 * (process.memory.len() + 1);
            process.memory.insert(address, vec![0xee; *length]);
            Ok(FFIResponse::Done(Value::Pointer(address), None, None))
        }
        FFIRequest::ReadMemory { address, length } => Ok(FFIResponse::Done(
            Value::RawString(process.memory[address][..*length].to_vec()),
            None,
            None,
        )),
        FFIRequest::Call { libraryPath, functionName, args, resultType, readErrno, fixedArgs, .. } => {
            if libraryPath.starts_with("libChillffiDoesNotExist") {
                return Ok(FFIResponse::Failed(FFIError::LibraryLoadFailed {
                    libraryPath: libraryPath.clone(),
                    reason: "cannot open shared object file".to_string(),
                }));
            }
            let errno = |code: i32| if *readErrno { Some(code) } else { None };
            match (functionName.as_str(), args.as_slice()) {
                ("sqrt", [Value::F64(bits)]) => {
                    assert_eq!(*resultType, Type::F64);
                    let root = f64::from_bits(*bits).sqrt();
                    Ok(FFIResponse::Done(Value::F64(root.to_bits()), errno(0), None))
                }
                ("abs", [Value::I32(number)]) => {
                    assert_eq!(*resultType, Type::I32);
                    Ok(FFIResponse::Done(Value::I32(number.abs()), errno(0), None))
                }
                ("open", [Value::CString(_), Value::I32(0)]) => {
                    Ok(FFIResponse::Done(Value::I32(-1), errno(NoSuchFile), None))
                }
                ("failWithOsError", [Value::U32(code)]) => {
                    let osError = if *readErrno { Some(*code) } else { None };
                    Ok(FFIResponse::Done(Value::I32(-1), errno(0), osError))
                }
                ("sprintf", [Value::Pointer(target), Value::CString(format), rest @ ..]) => {
                    assert_eq!(*fixedArgs, Some(2));
                    let text = formatted(format, rest);
                    process.memory.get_mut(target).expect("a wild pointer")[..text.len()]
                        .copy_from_slice(&text);
                    Ok(FFIResponse::Done(Value::I32(text.len() as i32), errno(0), None))
                }
                ("div", [Value::I32(a), Value::I32(b)]) => {
                    assert_eq!(*resultType, Type::Struct(vec![Type::I32, Type::I32]));
                    Ok(FFIResponse::Done(
                        Value::Struct(vec![Value::I32(a / b), Value::I32(a % b)]),
                        None,
                        None,
                    ))
                }
                ("sum", values) => {
                    let mut total = 0;
                    for value in values {
                        match value {
                            Value::I32(number) => total += number,
                            other => panic!("unexpected argument: {other:?}"),
                        }
                    }
                    Ok(FFIResponse::Done(Value::I32(total), None, None))
                }
                ("greeting", []) => {
                    Ok(FFIResponse::Done(Value::String("say \"hi\"\n".to_string()), None, None))
                }
                ("triggerSegfault", []) | ("triggerAbort", []) => {
                    process.dead = true;
                    Err("the other end was closed".to_string())
                }
                (name, _) => Ok(FFIResponse::Failed(FFIError::SymbolNotFound {
                    functionName: name.to_string(),
                    reason: "undefined symbol".to_string(),
                })),
            }
        }
        other => panic!("unexpected request: {other:?}"),
    }
}

/// `sprintf`, as far as these tests need it.
fn formatted(format: &[u8], values: &[Value]) -> Vec<u8> {
    let mut text = Vec::new();
    let mut values = values.iter();
    let mut rest = format.iter();
    while let Some(byte) = rest.next() {
        if *byte != b'%' {
            text.push(*byte);
            continue;
        }
        match (rest.next(), values.next()) {
            (Some(b's'), Some(Value::CString(bytes))) => text.extend_from_slice(bytes),
            (Some(b'd'), Some(Value::I32(number))) => {
                text.extend_from_slice(number.to_string().as_bytes())
            }
            other => panic!("unexpected conversion: {other:?}"),
        }
    }
    text
}

fn cText(text: &str) -> CText {
    CText(text.as_bytes().to_vec())
}

// ------------------------------------------------------------------------------------------------
// errno
// ------------------------------------------------------------------------------------------------

#[test]
fn errnoCapturedWhenRequested() {
    let mut world = World::new();
    let guard = world.enter();
    let libc = Library::load(&mut world.runtime.registry, LibcPath);
    let call = libc
        .call("open")
        .arg(cText("/no/such/chillffi/test/path"))
        .arg::<i32>(0)
        .errno()
        .result::<i32>(&mut world.runtime, &mut world.thread, None);
    let fd: i32 = world.run(call).expect("errno capture test failed");
    assert_eq!(fd, -1, "open() on a nonexistent path should fail");
    let errno = lastErrno(&world.thread);
    world.leave(guard);

    assert_eq!(errno, Some(NoSuchFile));
}

#[test]
fn errnoNoneWhenNotRequested() {
    let mut world = World::new();
    let guard = world.enter();
    let libc = Library::load(&mut world.runtime.registry, LibcPath);
    let call = libc
        .call("open")
        .arg(cText("/no/such/chillffi/test/path2"))
        .arg::<i32>(0)
        .result::<i32>(&mut world.runtime, &mut world.thread, None);
    let fd: i32 = world.run(call).expect("errno-off test failed");
    assert_eq!(fd, -1);
    let errno = lastErrno(&world.thread);
    world.leave(guard);

    assert_eq!(errno, None);
}

#[test]
fn osErrorCapturedWhenRequested() {
    const ErrorAccessDenied: u32 = 5;

    let mut world = World::new();
    let guard = world.enter();
    let lib = Library::load(&mut world.runtime.registry, "examples/errno/liberrno.so");
    let call = lib
        .call("failWithOsError")
        .arg::<u32>(ErrorAccessDenied)
        .errno()
        .result::<i32>(&mut world.runtime, &mut world.thread, None);
    let result: i32 = world.run(call).expect("osError capture test failed");
    assert_eq!(result, -1);
    let osError = lastOsError(&world.thread);
    world.leave(guard);

    assert_eq!(osError, Some(ErrorAccessDenied));
}

#[test]
fn osErrorNoneWhenNotRequested() {
    let mut world = World::new();
    let guard = world.enter();
    let lib = Library::load(&mut world.runtime.registry, "examples/errno/liberrno.so");
    let call = lib
        .call("failWithOsError")
        .arg::<u32>(5)
        .result::<i32>(&mut world.runtime, &mut world.thread, None);
    let result: i32 = world.run(call).expect("osError-off test failed");
    assert_eq!(result, -1);
    let osError = lastOsError(&world.thread);
    world.leave(guard);

    assert_eq!(osError, None);
}

#[test]
fn everyRequestOverwritesErrno() {
    let mut world = World::new();
    let guard = world.enter();
    let libc = Library::load(&mut world.runtime.registry, LibcPath);
    let call = libc
        .call("open")
        .arg(cText("/no/such/path"))
        .arg::<i32>(0)
        .errno()
        .result::<i32>(&mut world.runtime, &mut world.thread, None);
    world.run(call).expect("open failed");
    assert_eq!(lastErrno(&world.thread), Some(NoSuchFile));

    let call =
        libc.call("noSuchFunction").void(&mut world.runtime, &mut world.thread, None);
    assert!(world.run(call).is_err());
    assert_eq!(lastErrno(&world.thread), None);
    world.leave(guard);
}

#[test]
fn errnoSettingsMostSpecificWins() {
    let mut world = World::new();
    let guard = world.enter();
    let libc = Library::load(&mut world.runtime.registry, LibcPath);
    // (global, scope, call, expected)
    let cases: Vec<(bool, Option<bool>, Option<bool>, bool)> = vec![
        (false, None, None, false),
        (true, None, None, true),
        (false, Some(true), None, true),
        (true, Some(false), None, false),
        (false, Some(false), Some(true), true),
        (true, Some(true), Some(false), false),
    ];
    for (global, scope, call, expected) in cases {
        world.runtime.globalReadErrno = global;
        world.thread.scopeReadErrno = scope;
        let mut builder = libc.call("open").arg(cText("/no/such/path")).arg::<i32>(0);
        if call == Some(true) {
            builder = builder.errno();
        } else if call == Some(false) {
            builder = builder.noErrno();
        }
        let pending = builder.result::<i32>(&mut world.runtime, &mut world.thread, None);
        world.run(pending).expect("open failed");
        assert_eq!(lastErrno(&world.thread).is_some(), expected);
    }
    world.leave(guard);
}

// ------------------------------------------------------------------------------------------------
// Trace
// ------------------------------------------------------------------------------------------------

#[test]
fn traceCallDoesNotBreakResult() {
    let mut world = World::new();
    let guard = world.enter();
    let libm = Library::load(&mut world.runtime.registry, LibmPath);
    let call = libm
        .call("sqrt")
        .arg(F64(16.0f64.to_bits()))
        .trace()
        .result::<F64>(&mut world.runtime, &mut world.thread, None);
    assert!(call.as_ref().ok().expect("refused").pending.traceOn);
    let result = f64::from_bits(world.run(call).expect("traced sqrt failed").0);
    world.leave(guard);

    assert!((result - 4.0).abs() < f64::EPSILON, "trace must not alter the call result");
}

#[test]
fn noTraceOverridesScopeTrace() {
    let mut world = World::new();
    let guard = world.enter();
    world.thread.scopeTrace = Some(true);
    let libm = Library::load(&mut world.runtime.registry, LibmPath);
    let call = libm
        .call("sqrt")
        .arg(F64(25.0f64.to_bits()))
        .noTrace()
        .result::<F64>(&mut world.runtime, &mut world.thread, None);
    assert!(!call.as_ref().ok().expect("refused").pending.traceOn);
    let result = f64::from_bits(world.run(call).expect("noTrace+scope-trace call failed").0);
    world.leave(guard);

    assert!((result - 5.0).abs() < f64::EPSILON, "result must be unchanged by trace state");
}

#[test]
fn scopeTraceDoesNotBreakResult() {
    let mut world = World::new();
    let guard = world.enter();
    world.thread.scopeTrace = Some(true);
    let libm = Library::load(&mut world.runtime.registry, LibmPath);
    let call = libm
        .call("sqrt")
        .arg(F64(36.0f64.to_bits()))
        .result::<F64>(&mut world.runtime, &mut world.thread, None);
    assert!(call.as_ref().ok().expect("refused").pending.traceOn);
    let result = f64::from_bits(world.run(call).expect("scope-trace sqrt failed").0);
    world.leave(guard);

    assert!((result - 6.0).abs() < f64::EPSILON);
}

#[test]
fn variadicTraceDoesNotBreakResult() {
    let mut world = World::new();
    let guard = world.enter();
    let libc = Library::load(&mut world.runtime.registry, LibcPath);
    let mem = world.allocate(64);
    let call = libc
        .call("sprintf")
        .arg(mem)
        .arg(cText("%d-trace"))
        .variadic()
        .arg::<i32>(7)
        .trace()
        .result::<i32>(&mut world.runtime, &mut world.thread, None);
    let written: i32 = world.run(call).expect("variadic+trace sprintf failed");
    let bytes = world.read(mem, 64);
    let text = String::from_utf8(bytes[..written as usize].to_vec())
        .expect("sprintf output must be valid UTF-8");
    world.leave(guard);

    assert_eq!(text, "7-trace", "trace must not alter the variadic call result");
}

#[test]
fn noTraceOverridesTheEnvironment() {
    let mut world = World::new();
    let guard = world.enter();
    let libm = Library::load(&mut world.runtime.registry, LibmPath);
    let call = libm
        .call("sqrt")
        .arg(F64(4.0f64.to_bits()))
        .noTrace()
        .result::<F64>(&mut world.runtime, &mut world.thread, Some("1"));
    assert!(!call.ok().expect("refused").pending.traceOn);
    assert!(!world.runtime.tracePolicy.envSeeded, "the environment was not needed");

    let call = libm
        .call("sqrt")
        .arg(F64(4.0f64.to_bits()))
        .result::<F64>(&mut world.runtime, &mut world.thread, Some("1"));
    assert!(call.ok().expect("refused").pending.traceOn);
    assert!(world.runtime.tracePolicy.envSeeded);
    world.leave(guard);
}

#[test]
fn tracedRequestsDifferOnlyInTheFlag() {
    let mut world = World::new();
    let guard = world.enter();
    let libm = Library::load(&mut world.runtime.registry, LibmPath);
    let plain = libm
        .call("abs")
        .arg::<i32>(-5)
        .noTrace()
        .result::<i32>(&mut world.runtime, &mut world.thread, None)
        .ok()
        .expect("refused");
    let traced = libm
        .call("abs")
        .arg::<i32>(-5)
        .trace()
        .result::<i32>(&mut world.runtime, &mut world.thread, None)
        .ok()
        .expect("refused");
    let request = |trace: bool| FFIRequest::Call {
        libraryPath: LibmPath.to_string(),
        functionName: "abs".to_string(),
        args: vec![Value::I32(-5)],
        resultType: Type::I32,
        readErrno: false,
        trace,
        fixedArgs: None,
    };
    assert_eq!(plain.pending.request, request(false));
    assert_eq!(traced.pending.request, request(true));
    world.leave(guard);
}

// ------------------------------------------------------------------------------------------------
// Libraries
// ------------------------------------------------------------------------------------------------

#[test]
fn libraryDrop() {
    let mut world = World::new();
    let guard = world.enter();
    let libm = Library::load(&mut world.runtime.registry, LibmPath);
    let id = libm.id();
    assert!(world.runtime.registry.isRegistered(id));
    libm.drop(&mut world.runtime.registry);
    world.leave(guard);

    assert!(!world.runtime.registry.isRegistered(id));
}

#[test]
fn libraryAutoDrop() {
    let mut world = World::new();
    let guard = world.enter();
    let id = {
        let libm = Library::load(&mut world.runtime.registry, LibmPath);
        let id = libm.id();
        libm.drop(&mut world.runtime.registry);
        id
    };
    world.leave(guard);

    assert!(!world.runtime.registry.isRegistered(id));
}

#[test]
fn libraryUnload() {
    let mut world = World::new();
    let guard = world.enter();
    let libm = Library::load(&mut world.runtime.registry, LibmPath);
    let id = libm.id();
    libm.unload(&mut world.runtime.registry).expect("ffi block failed");
    world.leave(guard);

    assert!(!world.runtime.registry.isRegistered(id));
}

#[test]
fn path() {
    let mut world = World::new();
    let guard = world.enter();
    let libm = Library::load(&mut world.runtime.registry, LibmPath);
    let path = libm.path().to_string();
    world.leave(guard);

    assert_eq!(path, LibmPath);
}

#[test]
fn identifiersCountUp() {
    let mut world = World::new();
    let one = Library::load(&mut world.runtime.registry, LibmPath);
    let other = Library::load(&mut world.runtime.registry, LibmPath);
    assert_eq!(one.id(), 1);
    assert_eq!(other.id(), 2);
    one.drop(&mut world.runtime.registry);
    assert!(!world.runtime.registry.isRegistered(1));
    assert!(world.runtime.registry.isRegistered(2));
}

#[test]
fn unregisteredLibraryIsNotFound() {
    let mut world = World::new();
    let guard = world.enter();
    let libm = Library::load(&mut world.runtime.registry, LibmPath);
    world.runtime.registry.unregisterLibrary(libm.id());
    let call = libm
        .call("abs")
        .arg::<i32>(-5)
        .result::<i32>(&mut world.runtime, &mut world.thread, None);
    assert_eq!(
        call.err(),
        Some(FFIError::LibraryNotFound { libraryPath: LibmPath.to_string() })
    );
    world.leave(guard);
}

#[test]
fn unloadingOneLibrarySparesTheOthers() {
    let mut world = World::new();
    let guard = world.enter();
    let libm = Library::load(&mut world.runtime.registry, LibmPath);
    let libc = Library::load(&mut world.runtime.registry, LibcPath);
    libc.unload(&mut world.runtime.registry).expect("unloading does not fail");
    let call = libm
        .call("abs")
        .arg::<i32>(-9)
        .result::<i32>(&mut world.runtime, &mut world.thread, None);
    assert_eq!(world.run(call), Ok(9));
    world.leave(guard);
}

#[test]
fn libraryLoadFailed() {
    let mut world = World::new();
    let guard = world.enter();
    let bogus = Library::load(&mut world.runtime.registry, "libChillffiDoesNotExist9000.so");
    let call = bogus.call("whatever").void(&mut world.runtime, &mut world.thread, None);
    let err = world.run(call).expect_err("loading a nonexistent library should fail");
    world.leave(guard);

    assert!(matches!(err, FFIError::LibraryLoadFailed { .. }), "unexpected error: {err:?}");
}

#[test]
fn symbolNotFound() {
    let mut world = World::new();
    let guard = world.enter();
    let libm = Library::load(&mut world.runtime.registry, LibmPath);
    let call = libm.call("thisSymbolDoesNotExistAnywhere").void(
        &mut world.runtime,
        &mut world.thread,
        None,
    );
    let err = world.run(call).expect_err("calling a missing symbol should fail");
    world.leave(guard);

    assert!(matches!(err, FFIError::SymbolNotFound { .. }), "unexpected error: {err:?}");
}

// ------------------------------------------------------------------------------------------------
// Calls
// ------------------------------------------------------------------------------------------------

#[test]
fn sqrt() {
    let mut world = World::new();
    let guard = world.enter();
    let libm = Library::load(&mut world.runtime.registry, LibmPath);
    let call = libm
        .call("sqrt")
        .arg(F64(4.0f64.to_bits()))
        .result::<F64>(&mut world.runtime, &mut world.thread, None);
    let result = f64::from_bits(world.run(call).expect("FFI call failed").0);
    world.leave(guard);

    assert!((result - 2.0).abs() < f64::EPSILON);
}

#[test]
fn abs() {
    let mut world = World::new();
    let guard = world.enter();
    let libm = Library::load(&mut world.runtime.registry, LibmPath);
    let call = libm
        .call("abs")
        .arg::<i32>(-5)
        .result::<i32>(&mut world.runtime, &mut world.thread, None);
    let result: i32 = world.run(call).expect("FFI call failed");
    world.leave(guard);

    assert_eq!(result, 5);
}

#[test]
fn test_sqrt() {
    let mut world = World::new();
    let guard = world.enter();
    let request = FFIRequest::Call {
        libraryPath: "libm.so.6".to_string(),
        functionName: "sqrt".to_string(),
        args: vec![Value::F64(4.0f64.to_bits())],
        resultType: Type::F64,
        readErrno: false,
        trace: false,
        fixedArgs: None,
    };
    let result = world.raw(request).expect("FFI call failed");
    world.leave(guard);

    match result {
        Value::F64(bits) => assert!((f64::from_bits(bits) - 2.0).abs() < f64::EPSILON),
        _ => panic!("Unexpected return type"),
    }
}

#[test]
fn test_abs() {
    let mut world = World::new();
    let guard = world.enter();
    let request = FFIRequest::Call {
        libraryPath: "libm.so.6".to_string(),
        functionName: "abs".to_string(),
        args: vec![Value::I32(-5)],
        resultType: Type::I32,
        readErrno: false,
        trace: false,
        fixedArgs: None,
    };
    let result = world.raw(request).expect("FFI call failed");
    world.leave(guard);

    match result {
        Value::I32(val) => assert_eq!(val, 5),
        _ => panic!("Unexpected return type"),
    }
}

#[test]
fn variadicSprintf() {
    let mut world = World::new();
    let guard = world.enter();
    let libc = Library::load(&mut world.runtime.registry, LibcPath);
    let mem = world.allocate(64);
    let call = libc
        .call("sprintf")
        .arg(mem)
        .arg(cText("Hello %s %d!"))
        .variadic()
        .arg(cText("world"))
        .arg::<i32>(42)
        .result::<i32>(&mut world.runtime, &mut world.thread, None);
    let written: i32 = world.run(call).expect("variadic sprintf failed");
    assert_eq!(written, 15, "sprintf should report 15 written chars");
    let bytes = world.read(mem, 64);
    let text = String::from_utf8(bytes[..written as usize].to_vec())
        .expect("sprintf output must be valid UTF-8");
    world.leave(guard);

    assert_eq!(text, "Hello world 42!");
}

#[test]
fn variadicWithoutFixedArgsFails() {
    let mut world = World::new();
    let guard = world.enter();
    let libc = Library::load(&mut world.runtime.registry, LibcPath);
    let err = libc
        .call("sprintf")
        .variadic()
        .arg(cText("hello"))
        .result::<i32>(&mut world.runtime, &mut world.thread, None)
        .err()
        .expect("a variadic call without fixed arguments should fail");
    assert!(matches!(err, FFIError::BadArgument(_)), "unexpected error: {err:?}");

    let err = libc
        .call("sprintf")
        .variadic()
        .void(&mut world.runtime, &mut world.thread, None)
        .err()
        .expect("a variadic call without fixed arguments should fail");
    assert!(matches!(err, FFIError::BadArgument(_)), "unexpected error: {err:?}");
    assert_eq!(world.sent, 0, "nothing of it may reach the clone");
    world.leave(guard);
}

#[test]
fn fixedArgumentsAreCountedWhereVariadicWasCalled() {
    let mut world = World::new();
    let guard = world.enter();
    let libc = Library::load(&mut world.runtime.registry, LibcPath);
    let call = libc
        .call("sum")
        .arg::<i32>(1)
        .arg::<i32>(2)
        .variadic()
        .errno()
        .arg::<i32>(3)
        .noErrno()
        .trace()
        .arg::<i32>(4)
        .noTrace()
        .result::<i32>(&mut world.runtime, &mut world.thread, None)
        .ok()
        .expect("refused");
    assert_eq!(
        call.pending.request,
        FFIRequest::Call {
            libraryPath: LibcPath.to_string(),
            functionName: "sum".to_string(),
            args: vec![Value::I32(1), Value::I32(2), Value::I32(3), Value::I32(4)],
            resultType: Type::I32,
            readErrno: false,
            trace: false,
            fixedArgs: Some(2),
        }
    );
    assert_eq!(world.run(Ok(call)), Ok(10));
    world.leave(guard);
}

#[test]
fn multipleCallsInSingleLibrary() {
    let mut world = World::new();
    let guard = world.enter();
    let libm = Library::load(&mut world.runtime.registry, LibmPath);
    let mut results: Vec<f64> = Vec::with_capacity(10);
    for i in 1..=10 {
        let input: f64 = (i * i) as f64;
        let call = libm
            .call("sqrt")
            .arg(F64(input.to_bits()))
            .result::<F64>(&mut world.runtime, &mut world.thread, None);
        results.push(f64::from_bits(world.run(call).expect("Batch FFI call failed").0));
    }
    world.leave(guard);

    assert_eq!(results.len(), 10);
    for (i, val) in results.into_iter().enumerate() {
        let expected: f64 = (i + 1) as f64;
        assert!((val - expected).abs() < f64::EPSILON, "Expected {}, got {}", expected, val);
    }
}

#[test]
fn structuresComeBackByValue() {
    let mut world = World::new();
    let guard = world.enter();
    let libc = Library::load(&mut world.runtime.registry, LibcPath);
    let call = libc
        .call("div")
        .arg::<i32>(17)
        .arg::<i32>(5)
        .resultStruct(&mut world.runtime, &mut world.thread, None, &[Type::I32, Type::I32])
        .ok()
        .expect("refused");
    let outcome = world.perform(&call.pending.request);
    let result = call.complete(&mut world.thread, outcome);
    assert_eq!(result, Ok(StructValue { values: vec![Value::I32(3), Value::I32(2)] }));
    world.leave(guard);
}

#[test]
fn variadicCallsReturnStructuresToo() {
    let mut world = World::new();
    let guard = world.enter();
    let libc = Library::load(&mut world.runtime.registry, LibcPath);
    let call = libc
        .call("sum")
        .arg::<i32>(1)
        .variadic()
        .arg::<i32>(2)
        .resultStruct(&mut world.runtime, &mut world.thread, None, &[Type::I64])
        .ok()
        .expect("refused");
    let outcome = world.perform(&call.pending.request);
    let result = call.complete(&mut world.thread, outcome);
    assert_eq!(
        result,
        Err(FFIError::Other("expected struct return, got I32(3)".to_string()))
    );
    world.leave(guard);
}

#[test]
fn resultsOfTheWrongTypeAreNamed() {
    let mut world = World::new();
    let guard = world.enter();
    let libc = Library::load(&mut world.runtime.registry, LibcPath);
    let call = libc.call("sum").arg::<i32>(-7).result::<u64>(&mut world.runtime, &mut world.thread, None);
    assert_eq!(
        world.run(call),
        Err(FFIError::Other("expected u64 return, got I32(-7)".to_string()))
    );
    let call = libc.call("greeting").result::<i32>(&mut world.runtime, &mut world.thread, None);
    assert_eq!(
        world.run(call),
        Err(FFIError::Other(
            "expected i32 return, got String(\"say \\\"hi\\\"\\n\")".to_string()
        ))
    );
    let call = libc.call("greeting").void(&mut world.runtime, &mut world.thread, None);
    assert_eq!(world.run(call), Ok(()));
    world.leave(guard);
}

#[test]
fn callsNeedAZygoteAndAScope() {
    let mut world = World::bare();
    let libm = Library::load(&mut world.runtime.registry, LibmPath);
    let call = libm.call("abs").void(&mut world.runtime, &mut world.thread, None);
    assert_eq!(call.err(), Some(FFIError::ZygoteNotInitialized));

    setupZygote(&mut world.runtime, &mut world.pool, Ok((77, ()))).expect("setup failed");
    let call = libm.call("abs").void(&mut world.runtime, &mut world.thread, None);
    assert_eq!(call.err(), Some(FFIError::NoActiveZygoteScope));
}

#[test]
fn rawRequestsNeedAZygoteAndAScope() {
    let mut world = World::bare();
    world.thread.lastErrno = Some(3);
    assert_eq!(world.raw(FFIRequest::Free { address: 1 }), Err(FFIError::ZygoteNotInitialized));
    assert_eq!(lastErrno(&world.thread), None);

    setupZygote(&mut world.runtime, &mut world.pool, Ok((77, ()))).expect("setup failed");
    assert_eq!(world.raw(FFIRequest::Free { address: 1 }), Err(FFIError::NoActiveZygoteScope));

    let guard = world.enter();
    let address = world.allocate(8).0;
    assert_eq!(
        world.raw(FFIRequest::ReadMemory { address, length: 2 }),
        Ok(Value::RawString(vec![0xee, 0xee]))
    );
    world.leave(guard);
}

fn noFixedArgument() -> FFIError {
    FFIError::BadArgument("a variadic call needs at least one fixed argument".to_string())
}

#[test]
fn clonesRefuseVariadicCallsWithoutFixedArguments() {
    let mut world = World::new();
    let guard = world.enter();
    let withFixedArgs = |fixedArgs: Option<usize>| FFIRequest::CallPointer {
        address: 4096,
        args: vec![],
        resultType: Type::Void,
        readErrno: false,
        trace: false,
        fixedArgs,
    };
    assert_eq!(world.raw(withFixedArgs(Some(0))), Err(noFixedArgument()));
    assert_eq!(world.sent, 1, "a raw request is left to the clone");
    assert_eq!(checkRequest(&withFixedArgs(Some(0))), Err(noFixedArgument()));
    assert_eq!(checkRequest(&withFixedArgs(Some(1))), Ok(()));
    assert_eq!(checkRequest(&withFixedArgs(None)), Ok(()));
    assert_eq!(checkRequest(&FFIRequest::Free { address: 0 }), Ok(()));

    let libc = Library::load(&mut world.runtime.registry, LibcPath);
    let call = libc
        .call("div")
        .variadic()
        .arg::<i32>(17)
        .arg::<i32>(5)
        .resultStruct(&mut world.runtime, &mut world.thread, None, &[Type::I32, Type::I32])
        .ok()
        .expect("refused");
    let outcome = world.perform(&call.pending.request);
    assert_eq!(call.complete(&mut world.thread, outcome), Err(noFixedArgument()));
    assert_eq!(world.sent, 2);
    world.leave(guard);
}

// ------------------------------------------------------------------------------------------------
// Isolation
// ------------------------------------------------------------------------------------------------

fn crash(world: &mut World, function: &str) -> Result<(), FFIError> {
    let guard = world.enter();
    let lib = Library::load(&mut world.runtime.registry, "examples/isolation/libcrash.so");
    let call = lib.call(function).void(&mut world.runtime, &mut world.thread, None);
    let result = world.run(call);
    lib.drop(&mut world.runtime.registry);
    world.leave(guard);
    result
}

#[test]
fn segfaultIsIsolated() {
    let mut world = World::new();
    let err = crash(&mut world, "triggerSegfault")
        .expect_err("a segfaulting clone must not report success");
    assert!(
        matches!(err, FFIError::ZygoteCommunicationFailed(_)),
        "unexpected error: {err:?}"
    );
}

#[test]
fn abortIsIsolated() {
    let mut world = World::new();
    let err = crash(&mut world, "triggerAbort")
        .expect_err("an aborting clone must not report success");
    assert!(
        matches!(err, FFIError::ZygoteCommunicationFailed(_)),
        "unexpected error: {err:?}"
    );
}

#[test]
fn crashesAreDescribed() {
    let mut world = World::new();
    let guard = world.enter();
    let lib = Library::load(&mut world.runtime.registry, "examples/isolation/libcrash.so");
    let call = lib.call("triggerAbort").void(&mut world.runtime, &mut world.thread, None);
    assert_eq!(
        world.run(call),
        Err(FFIError::ZygoteCommunicationFailed(
            "Zygote clone IPC failed while reading response: the other end was closed".to_string()
        ))
    );
    let call = lib.call("triggerAbort").void(&mut world.runtime, &mut world.thread, None);
    assert_eq!(
        world.run(call),
        Err(FFIError::ZygoteCommunicationFailed(
            "Zygote clone IPC failed while sending request: broken pipe".to_string()
        ))
    );
    world.leave(guard);
}

#[test]
fn runtimeSurvivesAfterCrash() {
    let mut world = World::new();
    let crashed = crash(&mut world, "triggerAbort");
    assert!(crashed.is_err(), "sanity check: the setup call should have crashed");
    assert_eq!(zygotesAlive(&world.pool.counters), 1);

    let guard = world.enter();
    let result = world.sqrt(16.0).expect("runtime should survive a crashed clone");
    world.leave(guard);

    assert!((result - 4.0).abs() < f64::EPSILON);
}

#[test]
fn sequentialCloneStress() {
    const Iterations: usize = 50;

    let mut world = World::new();
    for i in 0..Iterations {
        let guard = world.enter();
        let result = match world.sqrt(4.0) {
            Ok(result) => result,
            Err(e) => panic!("sequential clone stress failed on iteration {i}: {e:?}"),
        };
        world.leave(guard);

        assert!(
            (result - 2.0).abs() < f64::EPSILON,
            "unexpected sqrt result on iteration {i}"
        );
    }
    assert_eq!(activeClones(&world.pool.counters), 0);
}

#[test]
fn concurrentCloneStress() {
    const Threads: usize = 8;
    const PerThread: usize = 20;

    let mut world = World::new();
    for i in 0..PerThread {
        let guards: Vec<ZygoteGuard> = (0..Threads).map(|_| world.enter()).collect();
        assert_eq!(activeClones(&world.pool.counters), Threads as u64);
        for (t, guard) in guards.into_iter().enumerate() {
            let result = match world.sqrt(4.0) {
                Ok(result) => result,
                Err(e) => {
                    panic!("concurrent clone stress failed on thread {t} iteration {i}: {e:?}")
                }
            };
            assert!(
                (result - 2.0).abs() < f64::EPSILON,
                "unexpected sqrt result on thread {t} iteration {i}"
            );
            world.leave(guard);
        }
        assert_eq!(activeClones(&world.pool.counters), 0);
    }
}

#[test]
fn rapidCloneCreateDrop() {
    const Iterations: usize = 100;

    let mut world = World::new();
    for i in 0..Iterations {
        let zygote = match world.clone() {
            Ok(zygote) => zygote,
            Err(e) => panic!("getMeClone failed on iteration {i}: {e:?}"),
        };
        world.end(zygote);
    }
    assert_eq!(activeClones(&world.pool.counters), 0);
}

#[test]
fn scopesNestInnermostFirst() {
    let mut world = World::new();
    let outer = world.enter();
    let outerPid = world.stack.active().expect("no clone").pid;
    let inner = world.enter();
    let innerPid = world.stack.active().expect("no clone").pid;
    assert_ne!(outerPid, innerPid);
    assert!(world.thread.cloneActive);

    world.leave(inner);
    assert_eq!(world.stack.active().expect("no clone").pid, outerPid);
    assert!(world.thread.cloneActive);
    world.leave(outer);
    assert!(world.stack.active().is_none());
    assert!(!world.thread.cloneActive);
}

#[test]
fn scopesTakeTheirOwnClone() {
    let mut world = World::new();
    let first = world.enter();
    let firstPid = world.stack.active().expect("no clone").pid;
    let second = world.enter();
    let secondPid = world.stack.active().expect("no clone").pid;

    // The outer scope is left first, and takes the clone that served it.
    let clone = first.drop(&mut world.stack, &mut world.thread).expect("no clone");
    assert_eq!(clone.pid, firstPid);
    world.end(clone);
    assert_eq!(world.stack.active().expect("no clone").pid, secondPid);
    assert!(world.thread.cloneActive);
    world.leave(second);
    assert!(!world.thread.cloneActive);
}

#[test]
fn scopesAreFoundWhateverTheirProcesses() {
    // A process identifier can come twice, where a process is gone and its
    // identifier was given to another one.
    let mut world = World::new();
    let mut guards = Vec::new();
    for ends in [10u32, 20, 30] {
        let attempt = ClonedZygote::<u32, u32>::getMeClone(&mut world.pool, NoCaps);
        let clone = match attempt {
            CloneAttempt::Granted(pending) => pending
                .complete(
                    &mut world.pool,
                    Ok(Bootstrap { pid: 500, requestTx: ends, responseRx: ends }),
                )
                .ok()
                .expect("no clone"),
            _ => panic!("no slot"),
        };
        guards.push(ZygoteGuard::enter(&mut world.stack, &mut world.thread, clone));
    }
    let mut left = |guard: ZygoteGuard| {
        let clone = guard.drop(&mut world.stack, &mut world.thread).expect("no clone");
        clone.data.requestTx
    };
    let third = guards.pop().expect("a guard");
    let second = guards.pop().expect("a guard");
    let first = guards.pop().expect("a guard");
    assert_eq!(left(first), 10);
    assert_eq!(left(third), 30);
    assert_eq!(left(second), 20);
}

#[test]
fn numbersOfScopesAreUsedAgain() {
    let mut world = World::new();
    let first = world.enter();
    let second = world.enter();
    world.leave(first);
    let third = world.enter();
    let thirdPid = world.stack.active().expect("no clone").pid;
    world.leave(second);
    assert_eq!(world.stack.active().expect("no clone").pid, thirdPid);
    world.leave(third);
    assert!(!world.thread.cloneActive);
}

#[test]
fn aStackWithoutTheCloneHasNothingToLeave() {
    let mut world = World::new();
    let mut other = World::new();
    let guard = world.enter();
    assert!(guard.drop(&mut other.stack, &mut other.thread).is_none());
    assert!(!other.thread.cloneActive);
    assert!(world.stack.active().is_some());
}

#[test]
fn noCloneWithoutAZygote() {
    let mut world = World::bare();
    match world.clone() {
        Ok(_) => panic!("a clone of nothing"),
        Err(error) => {
            assert_eq!(error.kind, ErrorKind::NotFound);
            assert_eq!(error.message, "Zygote not initialized");
        }
    }
    assert_eq!(activeClones(&world.pool.counters), 0);
    assert_eq!(world.pool.starting, 0);
}
