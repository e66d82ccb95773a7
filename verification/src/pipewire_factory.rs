//! The mutation path: turning a link-creation request into the exact
//! native object-creation call the session loop must execute.

use vstd::prelude::*;
use crate::pipewire_loop::Factories;

verus! {

/// A mutation command for the session loop; currently only link creation.
/// The four identifiers are decimal strings, as the native call takes them.
#[derive(Debug, Clone, PartialEq, Eq)]
pub enum PipewireFactoryRequest {
    CreateLink {
        output_port_id: String,
        input_port_id: String,
        output_node_id: String,
        input_node_id: String,
    },
}

/// A fully described native object-creation call: the factory to invoke by
/// name, and the properties of the object to create.
#[derive(Debug, Clone, PartialEq, Eq)]
pub struct CreateObjectCommand {
    pub factory_name: String,
    pub properties: Vec<(String, String)>,
}

/// The mutation executor's state: the factory names resolved at startup.
/// The native connection handle that performs the call stays with the
/// session loop outside the library.
pub struct PipewireFactory {
    pub factories: Factories,
}

impl PipewireFactory {
    /// Builds the native object-creation call for one request: the link
    /// factory under its resolved name, the four port and node identifiers,
    /// and a linger property so the created link outlives the creating
    /// client.
    pub fn process_command(&self, request: PipewireFactoryRequest) -> (r: CreateObjectCommand)
        ensures
            r.factory_name == self.factories.link,
            (match request {
                PipewireFactoryRequest::CreateLink {
                    output_port_id,
                    input_port_id,
                    output_node_id,
                    input_node_id,
                } => {
                    &&& r.properties@.len() == 5
                    &&& r.properties@[0].0@ == "link.output.port"@
                    &&& r.properties@[0].1 == output_port_id
                    &&& r.properties@[1].0@ == "link.input.port"@
                    &&& r.properties@[1].1 == input_port_id
                    &&& r.properties@[2].0@ == "link.output.node"@
                    &&& r.properties@[2].1 == output_node_id
                    &&& r.properties@[3].0@ == "link.input.node"@
                    &&& r.properties@[3].1 == input_node_id
                    &&& r.properties@[4].0@ == "object.linger"@
                    &&& r.properties@[4].1@ == "1"@
                },
            }),
    {
        match request {
            PipewireFactoryRequest::CreateLink {
                output_port_id,
                input_port_id,
                output_node_id,
                input_node_id,
            } => {
                let mut properties: Vec<(String, String)> = Vec::new();
                properties.push(("link.output.port".to_owned(), output_port_id));
                properties.push(("link.input.port".to_owned(), input_port_id));
                properties.push(("link.output.node".to_owned(), output_node_id));
                properties.push(("link.input.node".to_owned(), input_node_id));
                properties.push(("object.linger".to_owned(), "1".to_owned()));
                CreateObjectCommand { factory_name: self.factories.link.clone(), properties }
            },
        }
    }
}

} // verus!
