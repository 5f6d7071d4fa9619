use vstd::prelude::*;

verus! {

/// A message for the main thread: a task to run there, a task that needs the
/// platform's event loop, a request to stop, or the report of a panic.
pub enum MainThreadMessage<Task, LoopTask> {
    RunOnMainThread { task: Task },
    GetEventLoop { task: LoopTask },
    Shutdown,
    PanicError { message: String },
}

/// What the main thread does after a batch of messages.
#[derive(Debug, Clone, PartialEq, Eq)]
pub enum TaskResult {
    /// Keep running.
    Continue,
    /// Stop.
    Shutdown,
    /// Stop because of a panic elsewhere, with its message.
    Panic(String),
}

/// Handles one message of the main thread's queue: a task is run there and
/// the queue goes on, a request for the event loop is left to the event
/// loop's own handler, and a request to stop or a panic report ends the batch
/// with that outcome.
pub fn handle_main_thread_message<Task: FnOnce(), LoopTask>(message: MainThreadMessage<Task, LoopTask>) -> (r:
    Option<TaskResult>)
    requires
        message matches MainThreadMessage::RunOnMainThread { task } ==> task.requires(()),
    ensures
        match message {
            MainThreadMessage::RunOnMainThread { task } => r is None && call_ensures(task, (), ()),
            MainThreadMessage::GetEventLoop { .. } => r is None,
            MainThreadMessage::Shutdown => r == Some(TaskResult::Shutdown),
            MainThreadMessage::PanicError { message } => r matches Some(TaskResult::Panic(m)) && m@ == message@,
        },
{
    match message {
        MainThreadMessage::RunOnMainThread { task } => {
            task();
            None
        },
        MainThreadMessage::GetEventLoop { .. } => None,
        MainThreadMessage::Shutdown => Some(TaskResult::Shutdown),
        MainThreadMessage::PanicError { message } => Some(TaskResult::Panic(message)),
    }
}

} // verus!
