//! The decode boundary: schema validation of a raw creation-event payload.
//!
//! A payload decodes to a `Process` exactly when its wrapper tag is the
//! creation-event class, it carries a nested instance tagged as the process
//! class, both identifiers are unsigned 32-bit integers, the image name is
//! non-empty text, and the path and command line are each text or absent
//! (a property that is missing or null counts as absent). Every other shape
//! fails with the `DecodeError` naming the first mismatch; no partially
//! populated record is ever produced.

use vstd::prelude::*;

use crate::raw::{RawEvent, RawEventView, RawInstanceView, RawProperty, RawPropertyView, RawValue,
    RawValueView, property_views};
use crate::record::{Process, ProcessView};

verus! {

/// Why a raw payload failed to decode; each variant names the first part of
/// the expected shape that the payload misses.
#[derive(Debug, Clone, Copy, PartialEq, Eq, Structural)]
pub enum DecodeError {
    /// The wrapper's class tag is not the creation-event class.
    WrongEventClass,
    /// The wrapper carries no nested target instance.
    MissingTargetInstance,
    /// The nested instance's class tag is not the process class.
    WrongInstanceClass,
    /// The process identifier is missing or not an unsigned 32-bit integer.
    BadProcessId,
    /// The parent identifier is missing or not an unsigned 32-bit integer.
    BadParentProcessId,
    /// The image name is missing, not text, or empty.
    BadName,
    /// The executable path is neither text nor absent.
    BadExecutablePath,
    /// The command line is neither text nor absent.
    BadCommandLine,
}

/// The class tag of a creation-event wrapper.
pub open spec fn creation_event_class() -> Seq<char> {
    "__InstanceCreationEvent"@
}

/// The class tag of a process instance.
pub open spec fn process_class() -> Seq<char> {
    "Win32_Process"@
}

/// The value of the first property named `name`, or `None` when no property
/// carries that name.
pub open spec fn spec_lookup(props: Seq<RawPropertyView>, name: Seq<char>) -> Option<RawValueView>
    decreases props.len(),
{
    if props.len() == 0 {
        None
    } else if props[0].name == name {
        Some(props[0].value)
    } else {
        spec_lookup(props.drop_first(), name)
    }
}

/// The property `name` read as an unsigned 32-bit integer; `None` when it is
/// missing, of another type, or out of range.
pub open spec fn spec_u32_field(props: Seq<RawPropertyView>, name: Seq<char>) -> Option<u32> {
    match spec_lookup(props, name) {
        Some(RawValueView::Unsigned(v)) => if v <= u32::MAX as u64 {
            Some(v as u32)
        } else {
            None
        },
        _ => None,
    }
}

/// The property `name` read as optional text: `Some(None)` when it is missing
/// or null, `Some(Some(s))` when it is text, and `None` when it has any other
/// type.
pub open spec fn spec_opt_text_field(props: Seq<RawPropertyView>, name: Seq<char>) -> Option<
    Option<Seq<char>>,
> {
    match spec_lookup(props, name) {
        None => Some(None),
        Some(RawValueView::Null) => Some(None),
        Some(RawValueView::Text(s)) => Some(Some(s)),
        Some(_) => None,
    }
}

/// The image name read as non-empty text; `None` on any other shape.
pub open spec fn spec_name_field(props: Seq<RawPropertyView>) -> Option<Seq<char>> {
    match spec_lookup(props, "Name"@) {
        Some(RawValueView::Text(s)) => if s.len() > 0 {
            Some(s)
        } else {
            None
        },
        _ => None,
    }
}

/// What decoding the nested instance yields.
pub open spec fn spec_decode_instance(inst: RawInstanceView) -> Result<ProcessView, DecodeError> {
    if inst.class_name != process_class() {
        Err(DecodeError::WrongInstanceClass)
    } else {
        match spec_u32_field(inst.properties, "ProcessId"@) {
            None => Err(DecodeError::BadProcessId),
            Some(pid) => match spec_u32_field(inst.properties, "ParentProcessId"@) {
                None => Err(DecodeError::BadParentProcessId),
                Some(ppid) => match spec_name_field(inst.properties) {
                    None => Err(DecodeError::BadName),
                    Some(name) => match spec_opt_text_field(inst.properties, "ExecutablePath"@) {
                        None => Err(DecodeError::BadExecutablePath),
                        Some(path) => match spec_opt_text_field(
                            inst.properties,
                            "CommandLine"@,
                        ) {
                            None => Err(DecodeError::BadCommandLine),
                            Some(cmd) => Ok(
                                ProcessView {
                                    process_id: pid,
                                    parent_process_id: ppid,
                                    name: name,
                                    executable_path: path,
                                    command_line: cmd,
                                },
                            ),
                        },
                    },
                },
            },
        }
    }
}

/// What decoding a raw payload yields: the fully validated record, or the
/// error naming the first shape mismatch.
pub open spec fn spec_decode(ev: RawEventView) -> Result<ProcessView, DecodeError> {
    if ev.class_name != creation_event_class() {
        Err(DecodeError::WrongEventClass)
    } else {
        match ev.target_instance {
            None => Err(DecodeError::MissingTargetInstance),
            Some(inst) => spec_decode_instance(inst),
        }
    }
}

/// Skipping past properties whose names all differ from `name` leaves the
/// lookup result unchanged.
proof fn lemma_lookup_skip(props: Seq<RawPropertyView>, name: Seq<char>, i: int)
    requires
        0 <= i <= props.len(),
        forall|j: int| 0 <= j < i ==> #[trigger] props[j].name != name,
    ensures
        spec_lookup(props, name) == spec_lookup(props.skip(i), name),
    decreases i,
{
    if i > 0 {
        assert(props[0].name != name);
        assert(props.skip(i) =~= props.drop_first().skip(i - 1));
        assert forall|j: int| 0 <= j < i - 1 implies #[trigger] props.drop_first()[j].name
            != name by {
            assert(props.drop_first()[j] == props[j + 1]);
        }
        lemma_lookup_skip(props.drop_first(), name, i - 1);
    } else {
        assert(props.skip(0) =~= props);
    }
}

/// Finds the first property named `name`.
fn lookup<'a>(props: &'a Vec<RawProperty>, name: &String) -> (r: Option<&'a RawValue>)
    ensures
        match r {
            Some(v) => spec_lookup(property_views(props@), name@) == Some(v@),
            None => spec_lookup(property_views(props@), name@) is None,
        },
{
    let ghost pv = property_views(props@);
    let mut i: usize = 0;
    while i < props.len()
        invariant
            pv == property_views(props@),
            pv.len() == props@.len(),
            0 <= i <= props@.len(),
            forall|j: int| 0 <= j < i ==> #[trigger] pv[j].name != name@,
        decreases props@.len() - i,
    {
        if props[i].name == *name {
            proof {
                assert(pv[i as int] == props@[i as int]@);
                lemma_lookup_skip(pv, name@, i as int);
                assert(pv.skip(i as int)[0] == pv[i as int]);
            }
            return Some(&props[i].value);
        }
        proof {
            assert(pv[i as int] == props@[i as int]@);
        }
        i += 1;
    }
    proof {
        lemma_lookup_skip(pv, name@, props.len() as int);
        assert(pv.skip(props.len() as int) =~= Seq::<RawPropertyView>::empty());
    }
    None
}

/// Reads the property `name` as an unsigned 32-bit integer.
fn get_u32_field(props: &Vec<RawProperty>, name: &String) -> (r: Option<u32>)
    ensures
        r == spec_u32_field(property_views(props@), name@),
{
    match lookup(props, name) {
        Some(RawValue::Unsigned(v)) => {
            if *v <= u32::MAX as u64 {
                Some(*v as u32)
            } else {
                None
            }
        },
        _ => None,
    }
}

/// Reads the property `name` as optional text.
fn get_opt_text_field(props: &Vec<RawProperty>, name: &String) -> (r: Option<Option<String>>)
    ensures
        match r {
            None => spec_opt_text_field(property_views(props@), name@) is None,
            Some(None) => spec_opt_text_field(property_views(props@), name@) == Some(
                Option::<Seq<char>>::None,
            ),
            Some(Some(s)) => spec_opt_text_field(property_views(props@), name@) == Some(
                Some(s@),
            ),
        },
{
    match lookup(props, name) {
        None => Some(None),
        Some(RawValue::Null) => Some(None),
        Some(RawValue::Text(s)) => Some(Some(s.clone())),
        Some(_) => None,
    }
}

/// Reads the image name as non-empty text.
fn get_name_field(props: &Vec<RawProperty>) -> (r: Option<String>)
    ensures
        match r {
            Some(s) => spec_name_field(property_views(props@)) == Some(s@),
            None => spec_name_field(property_views(props@)) is None,
        },
{
    let key = "Name".to_owned();
    match lookup(props, &key) {
        Some(RawValue::Text(s)) => {
            if !s.as_str().is_empty() {
                Some(s.clone())
            } else {
                None
            }
        },
        _ => None,
    }
}

/// Decodes one raw creation-event payload into a `Process`, validating the
/// whole expected shape; the result is exactly what `spec_decode` gives.
pub fn decode_event(ev: &RawEvent) -> (r: Result<Process, DecodeError>)
    ensures
        match r {
            Ok(p) => spec_decode(ev@) == Ok::<ProcessView, DecodeError>(p@),
            Err(e) => spec_decode(ev@) == Err::<ProcessView, DecodeError>(e),
        },
{
    let expected_event = "__InstanceCreationEvent".to_owned();
    if !(ev.class_name == expected_event) {
        return Err(DecodeError::WrongEventClass);
    }
    let inst = match &ev.target_instance {
        None => {
            return Err(DecodeError::MissingTargetInstance);
        },
        Some(inst) => inst,
    };
    let expected_instance = "Win32_Process".to_owned();
    if !(inst.class_name == expected_instance) {
        return Err(DecodeError::WrongInstanceClass);
    }
    let pid = match get_u32_field(&inst.properties, &"ProcessId".to_owned()) {
        None => {
            return Err(DecodeError::BadProcessId);
        },
        Some(v) => v,
    };
    let ppid = match get_u32_field(&inst.properties, &"ParentProcessId".to_owned()) {
        None => {
            return Err(DecodeError::BadParentProcessId);
        },
        Some(v) => v,
    };
    let name = match get_name_field(&inst.properties) {
        None => {
            return Err(DecodeError::BadName);
        },
        Some(s) => s,
    };
    let path = match get_opt_text_field(&inst.properties, &"ExecutablePath".to_owned()) {
        None => {
            return Err(DecodeError::BadExecutablePath);
        },
        Some(p) => p,
    };
    let cmd = match get_opt_text_field(&inst.properties, &"CommandLine".to_owned()) {
        None => {
            return Err(DecodeError::BadCommandLine);
        },
        Some(c) => c,
    };
    Ok(Process {
        process_id: pid,
        parent_process_id: ppid,
        name: name,
        executable_path: path,
        command_line: cmd,
    })
}

/// Malformed-payload law: a payload without the nested target instance never
/// decodes to a record, and when its wrapper tag is the creation-event class
/// the failure is exactly the missing instance.
pub proof fn lemma_missing_instance_fails(ev: RawEventView)
    requires
        ev.target_instance is None,
    ensures
        spec_decode(ev) is Err,
        ev.class_name == creation_event_class() ==> spec_decode(ev) == Err::<
            ProcessView,
            DecodeError,
        >(DecodeError::MissingTargetInstance),
{
}

} // verus!
