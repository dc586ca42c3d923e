//! What the console layer reads of the machine that owns a console.

use vstd::prelude::*;
use vstd::utf8::encode_utf8;

verus! {

/// The owner of a console as the console layer sees it: the few values that
/// end up in a greeting or a window title, taken when they are needed.
#[derive(Debug, Clone)]
pub struct vm_instance {
    /// Name of the instance.
    pub name: String,
    /// Numeric identifier of the instance.
    pub instance_id: i32,
    /// Kind of machine that is emulated.
    pub type_: String,
    /// One of the `VM_STATUS_*` values.
    pub status: i32,
}

pub type vm_instance_t = vm_instance;

/// The owner of a console as a mathematical value, its texts as their
/// bytes.
pub struct VmView {
    pub name: Seq<u8>,
    pub instance_id: int,
    pub type_: Seq<u8>,
    pub status: int,
}

impl View for vm_instance {
    type V = VmView;

    open spec fn view(&self) -> VmView {
        VmView {
            name: encode_utf8(self.name@),
            instance_id: self.instance_id as int,
            type_: encode_utf8(self.type_@),
            status: self.status as int,
        }
    }
}

} // verus!
