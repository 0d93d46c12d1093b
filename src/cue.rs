use vstd::prelude::*;

verus! {

/// The prompt the player is expected to answer, or `NoCommand` when no prompt
/// is outstanding.
#[derive(PartialEq, Eq, Structural, Clone, Copy, Debug)]
pub enum AudioCommand {
    NoCommand,
    Left,
    Right,
    Jump,
}

impl AudioCommand {
    /// The cue picked by a draw from `0..3`: 0 is left, 1 is right, anything
    /// else is jump.
    pub open spec fn from_choice_spec(choice: u32) -> AudioCommand {
        if choice == 0 {
            AudioCommand::Left
        } else if choice == 1 {
            AudioCommand::Right
        } else {
            AudioCommand::Jump
        }
    }

    pub fn from_choice(choice: u32) -> (r: AudioCommand)
        ensures
            r == Self::from_choice_spec(choice),
            r != AudioCommand::NoCommand,
    {
        if choice == 0 {
            AudioCommand::Left
        } else if choice == 1 {
            AudioCommand::Right
        } else {
            AudioCommand::Jump
        }
    }

    pub fn is_none(&self) -> (r: bool)
        ensures
            r == (*self == AudioCommand::NoCommand),
    {
        match self {
            AudioCommand::NoCommand => true,
            _ => false,
        }
    }

    /// The audio clip that presents this cue; `NoCommand` has no clip.
    pub fn sound_file(&self) -> (r: Option<&'static str>)
        ensures
            *self == AudioCommand::NoCommand <==> r is None,
            *self == AudioCommand::Left ==> r == Some("audio/left.ogg"),
            *self == AudioCommand::Right ==> r == Some("audio/right.ogg"),
            *self == AudioCommand::Jump ==> r == Some("audio/jump.ogg"),
    {
        match self {
            AudioCommand::NoCommand => None,
            AudioCommand::Left => Some("audio/left.ogg"),
            AudioCommand::Right => Some("audio/right.ogg"),
            AudioCommand::Jump => Some("audio/jump.ogg"),
        }
    }
}

/// Which of the three game keys went down during one tick.
#[derive(PartialEq, Eq, Structural, Clone, Copy, Debug)]
pub struct KeyEdges {
    pub left: bool,
    pub right: bool,
    pub jump: bool,
}

impl KeyEdges {
    /// The cue that the tick's key edges answer with. When several keys went
    /// down together, left wins over right and right over jump.
    pub open spec fn pressed_spec(self) -> AudioCommand {
        if self.left {
            AudioCommand::Left
        } else if self.right {
            AudioCommand::Right
        } else if self.jump {
            AudioCommand::Jump
        } else {
            AudioCommand::NoCommand
        }
    }

    pub fn pressed(&self) -> (r: AudioCommand)
        ensures
            r == self.pressed_spec(),
            r == AudioCommand::NoCommand <==> (!self.left && !self.right && !self.jump),
    {
        if self.left {
            AudioCommand::Left
        } else if self.right {
            AudioCommand::Right
        } else if self.jump {
            AudioCommand::Jump
        } else {
            AudioCommand::NoCommand
        }
    }
}

} // verus!
