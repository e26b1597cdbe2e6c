//! The for-in iteration opcode: creating a property iterator for a value.
//!
//! The virtual machine's registers and iterator stack are modeled as
//! plain values. Turning a value into an object fails exactly on
//! `undefined` and `null`; a primitive is wrapped in a fresh object, and
//! the created iterator record is pushed onto the frame's iterator
//! stack with its `next` method attached.

use vstd::prelude::*;
use crate::interner::Sym;
use crate::intl::TypeError;

verus! {

/// A machine value as the iteration opcode reads it.
#[derive(Debug, Clone, Copy, PartialEq, Eq, Structural)]
pub enum JsValueKind {
    /// `undefined`.
    Undefined,
    /// `null`.
    Null,
    /// A boolean.
    Boolean(bool),
    /// An integer number.
    Integer(i64),
    /// A string, interned.
    StringValue(Sym),
    /// An object, by identity.
    Object(u64),
}

/// An iterator with its `next` method, as the frame stores it.
#[derive(Debug, Clone, Copy, PartialEq, Eq, Structural)]
pub struct IteratorRecord {
    /// The iterator object's identity.
    pub iterator: u64,
    /// Whether the record carries the iterator's `next` method. A
    /// freshly created for-in iterator always does.
    pub has_next_method: bool,
}

/// The machine state the opcode touches: the current frame's registers
/// and iterator stack, plus the identity counter for fresh objects.
#[derive(Debug, PartialEq, Eq)]
pub struct VmFrame {
    /// The frame's registers.
    pub registers: Vec<JsValueKind>,
    /// The frame's iterator stack.
    pub iterators: Vec<IteratorRecord>,
    /// The identity the next created object receives.
    pub next_object_id: u64,
}

/// The object the value converts to: an object converts to itself, a
/// primitive is wrapped in a fresh object.
pub open spec fn object_of(value: JsValueKind, fresh: u64) -> u64 {
    match value {
        JsValueKind::Object(id) => id,
        _ => fresh,
    }
}

/// The for-in iterator creation opcode.
#[derive(Debug, Clone, Copy)]
pub struct CreateForInIterator {}

impl CreateForInIterator {
    /// Creates a for-in iterator for the value in the given register and
    /// pushes its record onto the frame's iterator stack. Fails exactly
    /// when the value is `undefined` or `null`, which convert to no
    /// object.
    pub fn operation(value: u32, frame: &mut VmFrame) -> (r: Result<(), TypeError>)
        requires
            (value as int) < old(frame).registers@.len(),
            old(frame).next_object_id < u64::MAX,
        ensures
            (r is Err) <==> (old(frame).registers@[value as int] == JsValueKind::Undefined
                || old(frame).registers@[value as int] == JsValueKind::Null),
            final(frame).registers == old(frame).registers,
            r is Err ==> final(frame).iterators == old(frame).iterators
                && final(frame).next_object_id == old(frame).next_object_id,
            r is Ok ==> final(frame).iterators@ == old(frame).iterators@.push(
                IteratorRecord {
                    iterator: object_of(
                        old(frame).registers@[value as int],
                        old(frame).next_object_id,
                    ),
                    has_next_method: true,
                },
            ),
            r is Ok ==> final(frame).next_object_id as int == (match old(
                frame,
            ).registers@[value as int] {
                JsValueKind::Object(_) => old(frame).next_object_id as int,
                _ => old(frame).next_object_id as int + 1,
            }),
    {
        let v = frame.registers[value as usize];
        let object_id: u64 = match v {
            JsValueKind::Undefined => {
                return Err(TypeError { message: "cannot convert undefined to an object" });
            },
            JsValueKind::Null => {
                return Err(TypeError { message: "cannot convert null to an object" });
            },
            JsValueKind::Object(id) => id,
            _ => {
                let id = frame.next_object_id;
                frame.next_object_id = frame.next_object_id + 1;
                id
            },
        };
        frame.iterators.push(IteratorRecord { iterator: object_id, has_next_method: true });
        Ok(())
    }
}

} // verus!
