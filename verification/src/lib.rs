//! A minimal native extension module for an embedding host runtime, modelled
//! and verified over plain values.
//!
//! The module registers a single callable, `add`, with the host: it unpacks
//! two native integers from a host-owned argument tuple, sums them, and packs
//! the result back into a host value. Host objects are owned entirely by the
//! host; this library models of such an object exactly what the module reads
//! of it through the host's conversion routines, and nothing more. The raw
//! foreign-function shell that hands real host pointers back and forth lives
//! outside the library and delegates every decision to the functions here.

use vstd::prelude::*;

verus! {

/// Calling-convention flag for a method-table entry: the callable accepts
/// variable positional arguments, handed over as one argument tuple.
pub const METH_VARARGS: i32 = 0x0001;

/// ABI version tag that the registration entry point hands to the host's
/// module-construction routine, identifying the descriptor layout in use.
pub const MODULE_API_VERSION: i32 = 1013;

/// What this module can learn of a host-owned value through the host's
/// conversion routines: its kind, and the native integer it carries, if any.
/// Every such value stays owned by the host; the module never looks deeper.
#[derive(Clone, Debug, PartialEq, Eq)]
pub enum PyObject {
    /// A value the host converts to a native 32-bit signed integer.
    Int(i32),
    /// A text value; the host refuses to convert it to an integer.
    Text(String),
    /// A floating-point value; the host refuses the implicit conversion to
    /// an integer, so its magnitude plays no part in this module.
    Float,
    /// Any other host value.
    Other,
}

/// Holds exactly when `args` is a two-element tuple of integers: the one
/// shape of argument tuple on which the host's unpacking routine, asked for
/// two native integers, succeeds.
pub open spec fn two_int_args(args: Seq<PyObject>) -> bool {
    &&& args.len() == 2
    &&& args[0] is Int
    &&& args[1] is Int
}

/// The native integer a host value carries.
pub open spec fn int_arg(o: PyObject) -> int
    recommends
        o is Int,
{
    match o {
        PyObject::Int(v) => v as int,
        _ => 0,
    }
}

/// The mathematical sum of a two-integer argument tuple.
pub open spec fn args_sum(args: Seq<PyObject>) -> int
    recommends
        two_int_args(args),
{
    int_arg(args[0]) + int_arg(args[1])
}

/// Models the host's generic argument-unpacking routine applied with a
/// format that requests exactly two native integers: it yields the pair on
/// a two-element tuple of integers and fails on every other argument tuple
/// (wrong arity or a non-integer member).
pub fn parse_two_ints(args: &Vec<PyObject>) -> (r: Option<(i32, i32)>)
    ensures
        r is Some <==> two_int_args(args@),
        r matches Some(p) ==> p.0 == int_arg(args@[0]) && p.1 == int_arg(args@[1]),
{
    if args.len() != 2 {
        return None;
    }
    match (&args[0], &args[1]) {
        (PyObject::Int(a), PyObject::Int(b)) => Some((*a, *b)),
        _ => None,
    }
}

/// The one registered callable: unpack two native integers from the host's
/// argument tuple, sum them, and pack the sum into a host integer value.
/// A `None` result stands for the null pointer that signals failure to the
/// host; the pending error state is the host's own, set by its unpacking
/// routine, and this module neither raises nor clears anything itself.
/// The sum must fit the native 32-bit width: the host build this module
/// targets performs no overflow handling of its own.
pub fn add(args: &Vec<PyObject>) -> (r: Option<PyObject>)
    requires
        two_int_args(args@) ==> i32::MIN <= args_sum(args@) <= i32::MAX,
    ensures
        two_int_args(args@) ==> r == Some(PyObject::Int(args_sum(args@) as i32)),
        !two_int_args(args@) ==> r is None,
{
    match parse_two_ints(args) {
        Some((a, b)) => Some(PyObject::Int(a + b)),
        None => None,
    }
}

/// A pointer slot in a host record that this module leaves null for the
/// host to fill or ignore: only whether the slot is null is modelled.
#[derive(Clone, Copy, Debug, PartialEq, Eq, Structural)]
pub enum HostSlot {
    Null,
    Filled,
}

/// The callables this module can bind into its method table.
#[derive(Clone, Copy, Debug, PartialEq, Eq, Structural)]
pub enum Callable {
    /// The two-integer addition callable.
    Add,
}

/// One method-table entry: binds a name and a documentation string to a
/// callable under a calling-convention flag. Created once at registration
/// and immutable for the life of the process. An entry with every field
/// null is the sentinel that ends the table.
#[derive(Clone, Debug)]
pub struct PyMethodDef {
    /// Name under which the host exposes the callable; null in the sentinel.
    pub ml_name: Option<String>,
    /// The callable the entry binds; null in the sentinel.
    pub ml_meth: Option<Callable>,
    /// Calling-convention flags; zero in the sentinel.
    pub ml_flags: i32,
    /// Documentation string; null in the sentinel.
    pub ml_doc: Option<String>,
}

/// Housekeeping header of the module descriptor. Its fields belong to the
/// host; this module only hands them over in the state the host expects at
/// registration.
#[derive(Clone, Copy, Debug)]
pub struct PyModuleDefBase {
    /// Reference count the host starts from.
    pub ob_refcnt: isize,
    /// Host type pointer, left null for the host to fill.
    pub ob_type: HostSlot,
    /// One-phase initialization hook, unused by this module.
    pub m_init: HostSlot,
    /// Module index, assigned later by the host.
    pub m_index: isize,
    /// Cached module copy, managed by the host.
    pub m_copy: HostSlot,
}

/// The module descriptor handed to the host's module-construction routine:
/// the housekeeping header, the module's name and documentation, a size
/// hint for per-module state, and the method table. Built once at
/// registration and immutable thereafter.
#[derive(Clone, Debug)]
pub struct PyModuleDef {
    pub m_base: PyModuleDefBase,
    pub m_name: String,
    pub m_doc: String,
    /// Size hint for per-module state; negative means the module keeps no
    /// such state.
    pub m_size: isize,
    pub m_methods: Vec<PyMethodDef>,
    pub m_slots: HostSlot,
    pub m_traverse: HostSlot,
    pub m_clear: HostSlot,
    pub m_free: HostSlot,
}

/// An all-null method-table entry: the termination convention the host's
/// table walk relies on.
pub open spec fn entry_is_sentinel(e: PyMethodDef) -> bool {
    &&& e.ml_name is None
    &&& e.ml_meth is None
    &&& e.ml_flags == 0
    &&& e.ml_doc is None
}

/// A method table the host can walk safely: a contiguous sequence whose
/// last entry is the all-null sentinel, every earlier entry being a real
/// binding with a name and a callable. Without the sentinel the host would
/// read past the table.
pub open spec fn method_table_wf(t: Seq<PyMethodDef>) -> bool {
    &&& t.len() >= 1
    &&& entry_is_sentinel(t[t.len() - 1])
    &&& forall|i: int|
        0 <= i < t.len() - 1 ==> (#[trigger] t[i]).ml_name is Some && t[i].ml_meth is Some
}

/// A module descriptor in the state the host expects at registration: a
/// fresh header (reference count one, index zero, every pointer slot null),
/// a well-formed method table, and every optional hook left null.
pub open spec fn module_def_wf(d: PyModuleDef) -> bool {
    &&& d.m_base.ob_refcnt == 1
    &&& d.m_base.ob_type is Null
    &&& d.m_base.m_init is Null
    &&& d.m_base.m_index == 0
    &&& d.m_base.m_copy is Null
    &&& method_table_wf(d.m_methods@)
    &&& d.m_slots is Null
    &&& d.m_traverse is Null
    &&& d.m_clear is Null
    &&& d.m_free is Null
}

/// Builds the method table: exactly one real entry, binding the name
/// `"add"` to the addition callable under the variable-arguments
/// convention, followed by the all-null sentinel.
pub fn method_table() -> (t: Vec<PyMethodDef>)
    ensures
        method_table_wf(t@),
        t@.len() == 2,
        t@[0].ml_name matches Some(n) && n@ == "add"@,
        t@[0].ml_meth == Some(Callable::Add),
        t@[0].ml_flags == METH_VARARGS,
        t@[0].ml_doc matches Some(doc) && doc@ == "Add two integers"@,
        entry_is_sentinel(t@[1]),
{
    let mut t: Vec<PyMethodDef> = Vec::new();
    t.push(
        PyMethodDef {
            ml_name: Some("add".to_owned()),
            ml_meth: Some(Callable::Add),
            ml_flags: METH_VARARGS,
            ml_doc: Some("Add two integers".to_owned()),
        },
    );
    t.push(PyMethodDef { ml_name: None, ml_meth: None, ml_flags: 0, ml_doc: None });
    t
}

/// Registration entry point: builds the module descriptor that the host's
/// module-construction routine is handed when it loads the module named
/// `"rawffi"`. In the loaded binary this runs once, and the descriptor then
/// lives, immutable, for the rest of the process.
#[allow(non_snake_case)]
pub fn PyInit_rawffi() -> (d: PyModuleDef)
    ensures
        module_def_wf(d),
        d.m_name@ == "rawffi"@,
        d.m_doc@ == "Raw Rust Python bindings"@,
        d.m_size == -1,
        d.m_methods@.len() == 2,
        d.m_methods@[0].ml_name matches Some(n) && n@ == "add"@,
        d.m_methods@[0].ml_meth == Some(Callable::Add),
        d.m_methods@[0].ml_flags == METH_VARARGS,
        d.m_methods@[0].ml_doc matches Some(doc) && doc@ == "Add two integers"@,
        entry_is_sentinel(d.m_methods@[1]),
{
    let methods = method_table();
    PyModuleDef {
        m_base: PyModuleDefBase {
            ob_refcnt: 1,
            ob_type: HostSlot::Null,
            m_init: HostSlot::Null,
            m_index: 0,
            m_copy: HostSlot::Null,
        },
        m_name: "rawffi".to_owned(),
        m_doc: "Raw Rust Python bindings".to_owned(),
        m_size: -1,
        m_methods: methods,
        m_slots: HostSlot::Null,
        m_traverse: HostSlot::Null,
        m_clear: HostSlot::Null,
        m_free: HostSlot::Null,
    }
}

} // verus!
