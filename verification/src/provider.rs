//! The contract that every provider offers to a host: discovery and invocation.

use vstd::prelude::*;
use crate::arguments::payload_text;
use crate::protocol::{
    tool_names, CallToolRequest, CallToolResult, ListToolsRequest, ListToolsResult, ToolView,
};

verus! {

/// A provider: a fixed catalog of tools and a dispatcher that invokes them by name.
///
/// A host may probe several providers with the same call: a provider claims a call
/// exactly when its catalog lists the name, and otherwise yields nothing.
pub trait Provider {
    /// The tools of the provider, in declaration order.
    spec fn catalog(&self) -> Seq<ToolView>;

    /// Whether the provider can serve calls.
    spec fn ready(&self) -> bool;

    /// Whether `result` is a correct outcome of invoking the tool `name` on an
    /// optional payload.
    spec fn serves(
        &self,
        name: Seq<char>,
        arguments: Option<Seq<char>>,
        result: CallToolResult,
    ) -> bool;

    /// Lists the whole catalog, in declaration order, whatever the cursor. No
    /// cursor is ever handed back.
    fn list_tools(&self, request: &ListToolsRequest) -> (r: ListToolsResult)
        ensures
            r.tool_views() == self.catalog(),
            r.next_cursor is None,
            r.meta is None,
    ;

    /// Invokes a tool by name. A name outside the catalog is not handled; a name in
    /// it always yields a result, which is flagged when the call failed.
    fn call_tool(&self, request: &CallToolRequest) -> (r: Option<CallToolResult>)
        requires
            self.ready(),
        ensures
            r is Some <==> tool_names(self.catalog()).contains(request.name@),
            r matches Some(result) ==> self.serves(
                request.name@,
                payload_text(request.arguments),
                result,
            ),
    ;
}

} // verus!
