use rawffi::Callable;
use rawffi::HostSlot;
use rawffi::PyObject;
use rawffi::METH_VARARGS;

#[test]
fn add_two_and_three() {
    let args = vec![PyObject::Int(2), PyObject::Int(3)];
    assert_eq!(rawffi::add(&args), Some(PyObject::Int(5)));
}

#[test]
fn add_negatives_cancel() {
    let args = vec![PyObject::Int(-7), PyObject::Int(7)];
    assert_eq!(rawffi::add(&args), Some(PyObject::Int(0)));
}

#[test]
fn add_extreme_values() {
    let args = vec![PyObject::Int(i32::MAX), PyObject::Int(0)];
    assert_eq!(rawffi::add(&args), Some(PyObject::Int(i32::MAX)));
    let args = vec![PyObject::Int(i32::MIN), PyObject::Int(0)];
    assert_eq!(rawffi::add(&args), Some(PyObject::Int(i32::MIN)));
    let args = vec![PyObject::Int(i32::MAX), PyObject::Int(i32::MIN)];
    assert_eq!(rawffi::add(&args), Some(PyObject::Int(-1)));
}

#[test]
fn add_text_argument_fails() {
    let args = vec![PyObject::Text("x".to_string()), PyObject::Int(3)];
    assert_eq!(rawffi::add(&args), None);
}

#[test]
fn add_float_argument_fails() {
    let args = vec![PyObject::Int(3), PyObject::Float];
    assert_eq!(rawffi::add(&args), None);
}

#[test]
fn add_no_arguments_fails() {
    let args: Vec<PyObject> = vec![];
    assert_eq!(rawffi::add(&args), None);
}

#[test]
fn add_one_argument_fails() {
    let args = vec![PyObject::Int(2)];
    assert_eq!(rawffi::add(&args), None);
}

#[test]
fn add_three_arguments_fails() {
    let args = vec![PyObject::Int(2), PyObject::Int(3), PyObject::Int(4)];
    assert_eq!(rawffi::add(&args), None);
}

#[test]
fn parse_two_ints_accepts_an_integer_pair() {
    let args = vec![PyObject::Int(4), PyObject::Int(9)];
    assert_eq!(rawffi::parse_two_ints(&args), Some((4, 9)));
}

#[test]
fn parse_two_ints_rejects_other_kinds() {
    let args = vec![PyObject::Other, PyObject::Int(9)];
    assert_eq!(rawffi::parse_two_ints(&args), None);
    let args = vec![PyObject::Int(9), PyObject::Text("y".to_string())];
    assert_eq!(rawffi::parse_two_ints(&args), None);
}

#[test]
fn method_table_ends_in_sentinel() {
    let t = rawffi::method_table();
    assert_eq!(t.len(), 2);
    let sentinel = &t[1];
    assert!(sentinel.ml_name.is_none());
    assert!(sentinel.ml_meth.is_none());
    assert_eq!(sentinel.ml_flags, 0);
    assert!(sentinel.ml_doc.is_none());
}

#[test]
fn method_table_has_one_real_entry() {
    let t = rawffi::method_table();
    assert_eq!(t.len(), 2);
    let entry = &t[0];
    assert_eq!(entry.ml_name.as_deref(), Some("add"));
    assert_eq!(entry.ml_meth, Some(Callable::Add));
    assert_eq!(entry.ml_flags, METH_VARARGS);
    assert_eq!(entry.ml_doc.as_deref(), Some("Add two integers"));
}

#[test]
fn registration_builds_the_descriptor() {
    let d = rawffi::PyInit_rawffi();
    assert_eq!(d.m_name, "rawffi");
    assert_eq!(d.m_doc, "Raw Rust Python bindings");
    assert_eq!(d.m_size, -1);
    assert_eq!(d.m_base.ob_refcnt, 1);
    assert_eq!(d.m_base.ob_type, HostSlot::Null);
    assert_eq!(d.m_base.m_init, HostSlot::Null);
    assert_eq!(d.m_base.m_index, 0);
    assert_eq!(d.m_base.m_copy, HostSlot::Null);
    assert_eq!(d.m_methods.len(), 2);
    assert_eq!(d.m_methods[0].ml_name.as_deref(), Some("add"));
    assert_eq!(d.m_slots, HostSlot::Null);
    assert_eq!(d.m_traverse, HostSlot::Null);
    assert_eq!(d.m_clear, HostSlot::Null);
    assert_eq!(d.m_free, HostSlot::Null);
}

#[test]
fn module_api_version_tag() {
    assert_eq!(rawffi::MODULE_API_VERSION, 1013);
    assert_eq!(METH_VARARGS, 0x0001);
}
