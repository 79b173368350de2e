//! Tool calls in the OpenAI shape.
use vstd::prelude::*;

use crate::resolver::tool::IToolCall;

verus! {

/// The function a tool call invokes: its name and JSON argument text.
#[derive(Debug)]
pub struct ChatFunctionCall {
    pub name: String,
    pub arguments: String,
}

impl Clone for ChatFunctionCall {
    fn clone(&self) -> (r: Self)
        ensures
            r == *self,
    {
        ChatFunctionCall { name: self.name.clone(), arguments: self.arguments.clone() }
    }
}

/// A tool call: its id, its type (`function`) and the function called.
#[derive(Debug)]
pub struct ChatToolCall {
    pub id: String,
    pub type_: String,
    pub function: ChatFunctionCall,
}

impl Clone for ChatToolCall {
    fn clone(&self) -> (r: Self)
        ensures
            r == *self,
    {
        ChatToolCall { id: self.id.clone(), type_: self.type_.clone(), function: self.function.clone() }
    }
}

/// A tool call of the OpenAI shape.
pub trait OpenAiToolCall: IToolCall {

}

impl IToolCall for ChatToolCall {
    open spec fn id_view(&self) -> Seq<char> {
        self.id@
    }

    open spec fn name_view(&self) -> Seq<char> {
        self.function.name@
    }

    open spec fn args_view(&self) -> Seq<char> {
        self.function.arguments@
    }

    fn id(&self) -> (r: &str) {
        self.id.as_str()
    }

    fn name(&self) -> (r: &str) {
        self.function.name.as_str()
    }

    fn args(&self) -> (r: &str) {
        self.function.arguments.as_str()
    }
}

impl OpenAiToolCall for ChatToolCall {

}

/// A call of the function `name` with `arguments`, of type `function`.
pub fn function_call(id: String, name: String, arguments: String) -> (r: ChatToolCall)
    ensures
        r.id == id,
        r.type_@ == "function"@,
        r.function.name == name,
        r.function.arguments == arguments,
{
    ChatToolCall { id, type_: "function".to_owned(), function: ChatFunctionCall { name, arguments } }
}

} // verus!
