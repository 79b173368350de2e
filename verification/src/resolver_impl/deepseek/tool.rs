//! DeepSeek tool calls as generic tool calls.
use vstd::prelude::*;

use crate::resolver::tool::IToolCall;
use crate::resolver_impl::deepseek::data_object::DeepSeekToolCall;

verus! {

impl IToolCall for DeepSeekToolCall {
    open spec fn id_view(&self) -> Seq<char> {
        self.id@
    }

    open spec fn name_view(&self) -> Seq<char> {
        self.function.name@
    }

    open spec fn args_view(&self) -> Seq<char> {
        self.function.arguments@
    }

    fn id(&self) -> (r: &str) {
        self.id.as_str()
    }

    fn name(&self) -> (r: &str) {
        self.function.name.as_str()
    }

    fn args(&self) -> (r: &str) {
        self.function.arguments.as_str()
    }
}

} // verus!
