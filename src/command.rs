use vstd::prelude::*;

verus! {

/// The host actions that a remote can trigger.
#[derive(Clone, Copy, Debug, PartialEq, Eq, Structural)]
pub enum Action {
    VolumeUp,
    VolumeDown,
    NextTrack,
    PreviousTrack,
    PlayPause,
    Enter,
    CloseApplication,
}

/// The action bound to a command code, if any.
pub open spec fn action_of(code: int) -> Option<Action> {
    if code == 100 {
        Some(Action::VolumeUp)
    } else if code == 150 {
        Some(Action::VolumeDown)
    } else if code == 200 {
        Some(Action::NextTrack)
    } else if code == 250 {
        Some(Action::PreviousTrack)
    } else if code == 300 {
        Some(Action::PlayPause)
    } else if code == 350 {
        Some(Action::Enter)
    } else if code == 400 {
        Some(Action::CloseApplication)
    } else {
        None
    }
}

/// The fixed code-to-action table, in the order its entries are searched.
pub open spec fn table_spec() -> Seq<(i32, Action)> {
    seq![
        (100i32, Action::VolumeUp),
        (150i32, Action::VolumeDown),
        (200i32, Action::NextTrack),
        (250i32, Action::PreviousTrack),
        (300i32, Action::PlayPause),
        (350i32, Action::Enter),
        (400i32, Action::CloseApplication),
    ]
}

/// Builds the code-to-action table.
pub fn command_table() -> (r: Vec<(i32, Action)>)
    ensures
        r@ == table_spec(),
{
    let r = vec![
        (100i32, Action::VolumeUp),
        (150i32, Action::VolumeDown),
        (200i32, Action::NextTrack),
        (250i32, Action::PreviousTrack),
        (300i32, Action::PlayPause),
        (350i32, Action::Enter),
        (400i32, Action::CloseApplication),
    ];
    assert(r@ =~= table_spec());
    r
}

/// What dispatching a command code amounts to.
#[derive(Clone, Copy, Debug, PartialEq, Eq, Structural)]
pub enum Dispatch {
    /// Run this action once.
    Invoke(Action),
    /// The code is not in the table: report it and do nothing else.
    UnknownCode(i32),
}

/// The dispatch decision for a code.
pub open spec fn dispatch_of(code: i32) -> Dispatch {
    match action_of(code as int) {
        Some(a) => Dispatch::Invoke(a),
        None => Dispatch::UnknownCode(code),
    }
}

/// Whether the table holds an entry binding `code` to `a`.
pub open spec fn table_binds(code: i32, a: Action) -> bool {
    exists|i: int| 0 <= i < table_spec().len() && #[trigger] table_spec()[i] == (code, a)
}

/// Each entry of the table agrees with `action_of`.
proof fn lemma_table_entries()
    ensures
        forall|i: int|
            0 <= i < table_spec().len() ==> action_of(#[trigger] table_spec()[i].0 as int)
                == Some(table_spec()[i].1),
{
}

/// A code that the table binds selects its action and no other; any other code
/// selects no action and is reported as unknown.
pub proof fn dispatch_follows_table(code: i32)
    ensures
        forall|a: Action| #[trigger] table_binds(code, a) <==> dispatch_of(code) == Dispatch::Invoke(a),
        (forall|a: Action| !#[trigger] table_binds(code, a)) <==> dispatch_of(code)
            == Dispatch::UnknownCode(code),
{
    lemma_table_entries();
    let t = table_spec();
    if action_of(code as int) is Some {
        let k: int = if code == 100 {
            0
        } else if code == 150 {
            1
        } else if code == 200 {
            2
        } else if code == 250 {
            3
        } else if code == 300 {
            4
        } else if code == 350 {
            5
        } else {
            6
        };
        assert(t[k].0 == code);
        assert(table_binds(code, t[k].1));
    }
}

/// Looks a code up in the table: the action bound to it, or a notice that it is unknown.
pub fn run_command(code: i32) -> (r: Dispatch)
    ensures
        r == dispatch_of(code),
{
    let table = command_table();
    proof {
        lemma_table_entries();
    }
    let mut i: usize = 0;
    while i < table.len()
        invariant
            table@ == table_spec(),
            i <= table@.len(),
            forall|j: int| 0 <= j < i ==> #[trigger] table@[j].0 != code,
        decreases table@.len() - i,
    {
        let (c, a) = table[i];
        if c == code {
            return Dispatch::Invoke(a);
        }
        i = i + 1;
    }
    assert(forall|j: int| 0 <= j < 7 ==> table_spec()[j].0 != code);
    assert(table_spec()[0].0 == 100 && table_spec()[1].0 == 150 && table_spec()[2].0 == 200
        && table_spec()[3].0 == 250 && table_spec()[4].0 == 300 && table_spec()[5].0 == 350
        && table_spec()[6].0 == 400);
    Dispatch::UnknownCode(code)
}

/// Every action a code can select, in table order.
pub open spec fn all_actions() -> Seq<Action> {
    seq![
        Action::VolumeUp,
        Action::VolumeDown,
        Action::NextTrack,
        Action::PreviousTrack,
        Action::PlayPause,
        Action::Enter,
        Action::CloseApplication,
    ]
}

/// Every action stands somewhere in `all_actions`.
proof fn lemma_all_actions_complete(a: Action)
    ensures
        exists|i: int| 0 <= i < all_actions().len() && all_actions()[i] == a,
{
    match a {
        Action::VolumeUp => assert(all_actions()[0] == a),
        Action::VolumeDown => assert(all_actions()[1] == a),
        Action::NextTrack => assert(all_actions()[2] == a),
        Action::PreviousTrack => assert(all_actions()[3] == a),
        Action::PlayPause => assert(all_actions()[4] == a),
        Action::Enter => assert(all_actions()[5] == a),
        Action::CloseApplication => assert(all_actions()[6] == a),
    }
}

/// The action whose command name is `command`; `None` for a name that no action has.
pub fn action_named(command: &str) -> (r: Option<Action>)
    ensures
        r matches Some(a) ==> a.name_spec() == command@,
        r is None ==> forall|a: Action| a.name_spec() != command@,
{
    let wanted = command.to_owned();
    let actions = vec![
        Action::VolumeUp,
        Action::VolumeDown,
        Action::NextTrack,
        Action::PreviousTrack,
        Action::PlayPause,
        Action::Enter,
        Action::CloseApplication,
    ];
    assert(actions@ =~= all_actions());
    let mut i: usize = 0;
    while i < actions.len()
        invariant
            actions@ == all_actions(),
            i <= actions@.len(),
            wanted@ == command@,
            forall|j: int| 0 <= j < i ==> (#[trigger] actions@[j]).name_spec() != command@,
        decreases actions@.len() - i,
    {
        let a = actions[i];
        let name = a.name().to_owned();
        if name == wanted {
            return Some(a);
        }
        i = i + 1;
    }
    assert forall|a: Action| a.name_spec() != command@ by {
        lemma_all_actions_complete(a);
    }
    None
}

impl Action {
    /// The action's command name.
    pub open spec fn name_spec(self) -> Seq<char> {
        match self {
            Action::VolumeUp => "volumeup"@,
            Action::VolumeDown => "volumedown"@,
            Action::NextTrack => "nexttrack"@,
            Action::PreviousTrack => "previoustrack"@,
            Action::PlayPause => "playpause"@,
            Action::Enter => "enter"@,
            Action::CloseApplication => "altf4"@,
        }
    }

    /// The host shell command that synthesises the action's keystroke.
    pub open spec fn script_spec(self) -> Seq<char> {
        match self {
            Action::VolumeUp => "(new-object -com wscript.shell).SendKeys([char]175)"@,
            Action::VolumeDown => "(new-object -com wscript.shell).SendKeys([char]174)"@,
            Action::NextTrack => "(new-object -com wscript.shell).SendKeys([char]176)"@,
            Action::PreviousTrack => "(new-object -com wscript.shell).SendKeys([char]177)"@,
            Action::PlayPause => "(new-object -com wscript.shell).SendKeys([char]179)"@,
            Action::Enter => "(new-object -com wscript.shell).SendKeys('~')"@,
            Action::CloseApplication => "(new-object -com wscript.shell).SendKeys('%{F4}')"@,
        }
    }

    /// The message reported when the action's process cannot be launched.
    pub open spec fn failure_spec(self) -> Seq<char> {
        match self {
            Action::VolumeUp => "Failed to execute volume up command"@,
            Action::VolumeDown => "Failed to execute volume down command"@,
            Action::NextTrack => "Failed to execute next track command"@,
            Action::PreviousTrack => "Failed to execute previous track command"@,
            Action::PlayPause => "Failed to execute play/pause command"@,
            Action::Enter => "Failed to execute enter command"@,
            Action::CloseApplication => "Failed to execute alt-f4 command"@,
        }
    }

    pub fn name(&self) -> (r: &'static str)
        ensures
            r@ == self.name_spec(),
    {
        match self {
            Action::VolumeUp => "volumeup",
            Action::VolumeDown => "volumedown",
            Action::NextTrack => "nexttrack",
            Action::PreviousTrack => "previoustrack",
            Action::PlayPause => "playpause",
            Action::Enter => "enter",
            Action::CloseApplication => "altf4",
        }
    }

    pub fn script(&self) -> (r: &'static str)
        ensures
            r@ == self.script_spec(),
    {
        match self {
            Action::VolumeUp => "(new-object -com wscript.shell).SendKeys([char]175)",
            Action::VolumeDown => "(new-object -com wscript.shell).SendKeys([char]174)",
            Action::NextTrack => "(new-object -com wscript.shell).SendKeys([char]176)",
            Action::PreviousTrack => "(new-object -com wscript.shell).SendKeys([char]177)",
            Action::PlayPause => "(new-object -com wscript.shell).SendKeys([char]179)",
            Action::Enter => "(new-object -com wscript.shell).SendKeys('~')",
            Action::CloseApplication => "(new-object -com wscript.shell).SendKeys('%{F4}')",
        }
    }

    pub fn failure_message(&self) -> (r: &'static str)
        ensures
            r@ == self.failure_spec(),
    {
        match self {
            Action::VolumeUp => "Failed to execute volume up command",
            Action::VolumeDown => "Failed to execute volume down command",
            Action::NextTrack => "Failed to execute next track command",
            Action::PreviousTrack => "Failed to execute previous track command",
            Action::PlayPause => "Failed to execute play/pause command",
            Action::Enter => "Failed to execute enter command",
            Action::CloseApplication => "Failed to execute alt-f4 command",
        }
    }
}

} // verus!
