//! The kind-agnostic output of provisioning: one runnable service descriptor.

use vstd::prelude::*;

verus! {

/// A complete specification of one OS-level service instance, handed to an
/// external service manager to register. The argument order is part of the
/// contract. The working directory is never set by this crate; the service
/// manager applies its own default.
#[derive(Debug, PartialEq, Eq)]
pub struct ServiceDescriptor {
    pub args: Vec<String>,
    pub autostart: bool,
    pub environment: Option<Vec<(String, String)>>,
    pub label: String,
    pub program: String,
    pub username: Option<String>,
    pub working_directory: Option<String>,
}

/// The mathematical value of a descriptor: every field down to its character
/// sequences.
#[verifier::ext_equal]
pub struct DescriptorModel {
    pub args: Seq<Seq<char>>,
    pub autostart: bool,
    pub environment: Option<Seq<(Seq<char>, Seq<char>)>>,
    pub label: Seq<char>,
    pub program: Seq<char>,
    pub username: Option<Seq<char>>,
    pub working_directory: Option<Seq<char>>,
}

impl View for ServiceDescriptor {
    type V = DescriptorModel;

    open spec fn view(&self) -> DescriptorModel {
        DescriptorModel {
            args: self.args.deep_view(),
            autostart: self.autostart,
            environment: self.environment.deep_view(),
            label: self.label@,
            program: self.program@,
            username: self.username.deep_view(),
            working_directory: self.working_directory.deep_view(),
        }
    }
}

} // verus!
