use vstd::prelude::*;

use crate::error::HostError;
use crate::lifecycle::RuntimeHandle;
use crate::marshal::{
    byte_string_of, pairs_encodable, to_byte_string, to_parallel_arrays, PropertyArrays,
    PropertyMap,
};

verus! {

/// The marshaled inputs of one `coreclr_initialize` call. Its buffers live as
/// long as the value does; handing it back to the host after the call is
/// what releases them.
pub struct InitializeCall {
    pub exe_path: Vec<u8>,
    pub app_domain_name: Vec<u8>,
    pub properties: PropertyArrays,
    pub property_count: i32,
}

/// The marshaled inputs of one `coreclr_create_delegate` call.
pub struct DelegateCall {
    pub handle: RuntimeHandle,
    pub assembly_name: Vec<u8>,
    pub managed_type: Vec<u8>,
    pub method_name: Vec<u8>,
}

impl InitializeCall {
    /// `self` holds exactly the marshaled form of these inputs.
    pub open spec fn marshals(
        &self,
        exe_path: Seq<char>,
        app_domain_name: Seq<char>,
        properties: Seq<(Seq<char>, Seq<char>)>,
    ) -> bool {
        &&& byte_string_of(exe_path) == Ok::<Seq<u8>, HostError>(self.exe_path@)
        &&& byte_string_of(app_domain_name) == Ok::<Seq<u8>, HostError>(self.app_domain_name@)
        &&& pairs_encodable(properties)
        &&& self.properties.marshals(properties)
        &&& self.property_count == properties.len()
    }

    /// Marshals the inputs of an initialize call: the executable path and
    /// the domain name as byte strings, the properties as two parallel
    /// arrays. Fails with `Encoding`, before any foreign call can be made,
    /// exactly when some text holds a null byte.
    pub fn new(exe_path: &str, app_domain_name: &str, properties: &PropertyMap) -> (r: Result<
        InitializeCall,
        HostError,
    >)
        requires
            properties@.len() <= i32::MAX,
        ensures
            match r {
                Ok(call) => call.marshals(exe_path@, app_domain_name@, properties@),
                Err(e) => e == HostError::Encoding && (byte_string_of(exe_path@) is Err
                    || byte_string_of(app_domain_name@) is Err || !pairs_encodable(
                    properties@,
                )),
            },
    {
        let exe = to_byte_string(exe_path)?;
        let name = to_byte_string(app_domain_name)?;
        let arrays = to_parallel_arrays(properties)?;
        let count = properties.len() as i32;
        Ok(InitializeCall { exe_path: exe, app_domain_name: name, properties: arrays, property_count: count })
    }
}

impl DelegateCall {
    /// `self` holds exactly the marshaled form of these inputs.
    pub open spec fn marshals(
        &self,
        handle: RuntimeHandle,
        assembly_name: Seq<char>,
        managed_type: Seq<char>,
        method_name: Seq<char>,
    ) -> bool {
        &&& self.handle == handle
        &&& byte_string_of(assembly_name) == Ok::<Seq<u8>, HostError>(self.assembly_name@)
        &&& byte_string_of(managed_type) == Ok::<Seq<u8>, HostError>(self.managed_type@)
        &&& byte_string_of(method_name) == Ok::<Seq<u8>, HostError>(self.method_name@)
    }

    /// Marshals the inputs of a create-delegate call on `handle`. Fails with
    /// `Encoding` exactly when one of the three names holds a null byte.
    pub fn new(handle: RuntimeHandle, assembly_name: &str, managed_type: &str, method_name: &str) -> (r:
        Result<DelegateCall, HostError>)
        ensures
            match r {
                Ok(call) => call.marshals(handle, assembly_name@, managed_type@, method_name@),
                Err(e) => e == HostError::Encoding && (byte_string_of(assembly_name@) is Err
                    || byte_string_of(managed_type@) is Err || byte_string_of(method_name@) is Err),
            },
    {
        let assembly = to_byte_string(assembly_name)?;
        let type_bytes = to_byte_string(managed_type)?;
        let method = to_byte_string(method_name)?;
        Ok(DelegateCall { handle, assembly_name: assembly, managed_type: type_bytes, method_name: method })
    }
}

} // verus!
