//! The capability binding of one instance-to-be: which module bytes it runs,
//! how deep its interpreter stack may grow, and which environment variables,
//! arguments and host directories it is allowed to see.
//!
//! The description is immutable once built and is consumed by exactly one
//! execution context.

use vstd::prelude::*;
use crate::kvmap::AssocMap;

verus! {

/// The immutable description of one module instance: binary module bytes, the
/// interpreter stack size in bytes, the environment variable mapping (keys
/// unique, order irrelevant), the ordered argument list, and the mapping from
/// host path to optional guest-visible alias (no alias means the same path is
/// exposed verbatim).
pub struct ModuleSpec {
    pub module_bytes: Vec<u8>,
    pub stack_size: u32,
    pub env: AssocMap<String, String>,
    pub args: Vec<String>,
    pub dirs: AssocMap<String, Option<String>>,
}

impl ModuleSpec {
    /// Valid binding: a positive stack budget and well-formed mappings.
    pub open spec fn wf(&self) -> bool {
        &&& self.stack_size >= 1
        &&& self.env.wf()
        &&& self.dirs.wf()
    }

    /// Builds the binding.
    pub fn new(
        module_bytes: Vec<u8>,
        stack_size: u32,
        env: AssocMap<String, String>,
        args: Vec<String>,
        dirs: AssocMap<String, Option<String>>,
    ) -> (spec: Self)
        requires
            stack_size >= 1,
            env.wf(),
            dirs.wf(),
        ensures
            spec.wf(),
            spec.module_bytes@ == module_bytes@,
            spec.stack_size == stack_size,
            spec.env@ == env@,
            spec.args@ == args@,
            spec.dirs@ == dirs@,
    {
        ModuleSpec { module_bytes, stack_size, env, args, dirs }
    }

    /// Resolves the guest-visible path of a host directory: `None` when the
    /// host path was never granted, the alias when one was declared, and the
    /// host path itself when the grant has no alias.
    pub fn guest_path<'a>(&'a self, host: &'a String) -> (r: Option<&'a String>)
        requires
            self.wf(),
        ensures
            match r {
                None => !self.dirs@.contains_key(host@),
                Some(p) => self.dirs@.contains_key(host@) && p@ == match self.dirs@[host@] {
                    Some(alias) => alias@,
                    None => host@,
                },
            },
    {
        match self.dirs.get(host) {
            None => None,
            Some(alias) => match alias {
                Some(a) => Some(a),
                None => Some(host),
            },
        }
    }
}

} // verus!
