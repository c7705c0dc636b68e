//! The plain task: a name, a description and a reminder time, with the
//! lines that report what was done with it.

use crate::instant::Timestamp;
use vstd::prelude::*;

verus! {

/// A task with a reminder.
#[derive(Debug)]
pub struct ToDo {
    pub task_name: String,
    pub task_desc: String,
    pub reminder_time: Timestamp,
}

impl Clone for ToDo {
    fn clone(&self) -> (copy: ToDo)
        ensures
            copy == *self,
    {
        ToDo {
            task_name: self.task_name.clone(),
            task_desc: self.task_desc.clone(),
            reminder_time: self.reminder_time,
        }
    }
}

impl ToDo {
    /// A task of the given name and description, to be reminded of at
    /// `reminder_time`.
    pub fn new(task_name: String, task_desc: String, reminder_time: Timestamp) -> (task: ToDo)
        ensures
            task.task_name == task_name,
            task.task_desc == task_desc,
            task.reminder_time == reminder_time,
    {
        ToDo { task_name, task_desc, reminder_time }
    }

    /// The line that reports that the task was added.
    pub fn add_task(&self) -> (line: &'static str)
        ensures
            line@ == "task added to mongoDB"@,
    {
        "task added to mongoDB"
    }

    /// The line that reports that the task was updated.
    pub fn update_task(&self) -> (line: &'static str)
        ensures
            line@ == "task updated !"@,
    {
        "task updated !"
    }

    /// The line that reports that the task was completed.
    pub fn delete_or_mark_completed(&self) -> (line: &'static str)
        ensures
            line@ == "task Completed !"@,
    {
        "task Completed !"
    }
}

} // verus!
