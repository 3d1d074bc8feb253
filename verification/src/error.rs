use vstd::prelude::*;
use vstd::string::StringExecFns;

verus! {

/// The rule that a piece of user input broke.
#[derive(Clone, Copy, Debug, PartialEq, Eq, Structural)]
pub enum Invalid {
    EmptyProjectName,
    ProjectNameTooLong,
    EmptyTodoDescription,
    TodoDescriptionTooLong,
    Direction,
}

/// The kind of record that an identifier failed to name.
#[derive(Clone, Copy, Debug, PartialEq, Eq, Structural)]
pub enum Missing {
    Project,
    Todo,
}

/// Why an operation was refused. Every variant leaves the store as it was.
#[derive(Clone, Copy, Debug, PartialEq, Eq, Structural)]
pub enum DocketError {
    /// The input text is not acceptable.
    ValidationError(Invalid),
    /// The identifier names no record.
    NotFound(Missing),
    /// The todo is completed, and completed todos have no place in the order.
    InvalidOperation,
    /// The store cannot hand out another identifier or position.
    Exhausted,
}

impl DocketError {
    /// The message as a sequence of characters.
    pub open spec fn message_text(self) -> Seq<char> {
        match self {
            DocketError::ValidationError(Invalid::EmptyProjectName) => "Project name cannot be empty"@,
            DocketError::ValidationError(Invalid::ProjectNameTooLong) => "Project name is too long (max 255 characters)"@,
            DocketError::ValidationError(Invalid::EmptyTodoDescription) => "Todo description cannot be empty"@,
            DocketError::ValidationError(Invalid::TodoDescriptionTooLong) => "Todo description is too long (max 500 characters)"@,
            DocketError::ValidationError(Invalid::Direction) => "Invalid direction: must be 'up' or 'down'"@,
            DocketError::NotFound(Missing::Project) => "Failed to get project"@,
            DocketError::NotFound(Missing::Todo) => "Failed to get todo"@,
            DocketError::InvalidOperation => "cannot reorder completed items"@,
            DocketError::Exhausted => "No identifier or position left"@,
        }
    }

    /// A sentence for the user.
    pub fn message(&self) -> (s: String)
        ensures
            s@ == self.message_text(),
    {
        let text: &str = match self {
            DocketError::ValidationError(Invalid::EmptyProjectName) => "Project name cannot be empty",
            DocketError::ValidationError(Invalid::ProjectNameTooLong) => "Project name is too long (max 255 characters)",
            DocketError::ValidationError(Invalid::EmptyTodoDescription) => "Todo description cannot be empty",
            DocketError::ValidationError(Invalid::TodoDescriptionTooLong) => "Todo description is too long (max 500 characters)",
            DocketError::ValidationError(Invalid::Direction) => "Invalid direction: must be 'up' or 'down'",
            DocketError::NotFound(Missing::Project) => "Failed to get project",
            DocketError::NotFound(Missing::Todo) => "Failed to get todo",
            DocketError::InvalidOperation => "cannot reorder completed items",
            DocketError::Exhausted => "No identifier or position left",
        };
        String::from_str(text)
    }
}

} // verus!
