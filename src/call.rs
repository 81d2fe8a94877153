use vstd::prelude::*;

verus! {

/// One positional argument of an incoming method call.
#[derive(Clone, Debug)]
pub enum Arg {
    Str(String),
    U32(u32),
    I32(i32),
    StrList(Vec<String>),
    /// A value of a type that no handler reads (a variant map, a byte).
    Other,
}

/// Why a call's arguments could not be decoded.
#[derive(Clone, Copy, Debug, PartialEq, Eq, Structural)]
pub enum CallError {
    /// The call has fewer arguments than the position read.
    MissingArgument,
    /// The argument at the position read has another type.
    WrongArgumentType,
}

/// An incoming method call: who sent it, its serial, its member name and
/// its positional arguments.
#[derive(Clone, Debug)]
pub struct MethodCall {
    pub sender: String,
    pub serial: u32,
    pub member: String,
    pub args: Vec<Arg>,
}

/// The text at position `i` of `args`, or why there is none.
pub open spec fn arg_text(args: Seq<Arg>, i: int) -> Result<Seq<char>, CallError> {
    if i < 0 || i >= args.len() {
        Err(CallError::MissingArgument)
    } else {
        match args[i] {
            Arg::Str(s) => Ok(s@),
            _ => Err(CallError::WrongArgumentType),
        }
    }
}

/// The signed integer at position `i` of `args`, if there is one.
pub open spec fn arg_i32(args: Seq<Arg>, i: int) -> Option<i32> {
    if 0 <= i < args.len() {
        match args[i] {
            Arg::I32(v) => Some(v),
            _ => None,
        }
    } else {
        None
    }
}

/// Reads the text at position `i` of `args`.
pub fn text_arg(args: &Vec<Arg>, i: usize) -> (r: Result<String, CallError>)
    ensures
        match r {
            Ok(s) => arg_text(args@, i as int) == Ok::<Seq<char>, CallError>(s@),
            Err(e) => arg_text(args@, i as int) == Err::<Seq<char>, CallError>(e),
        },
{
    if i >= args.len() {
        return Err(CallError::MissingArgument);
    }
    match &args[i] {
        Arg::Str(s) => Ok(s.clone()),
        _ => Err(CallError::WrongArgumentType),
    }
}

/// Reads the signed integer at position `i` of `args`, if there is one.
pub fn i32_arg(args: &Vec<Arg>, i: usize) -> (r: Option<i32>)
    ensures
        r == arg_i32(args@, i as int),
{
    if i >= args.len() {
        return None;
    }
    match &args[i] {
        Arg::I32(v) => Some(*v),
        _ => None,
    }
}

} // verus!
