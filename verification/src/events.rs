use vstd::prelude::*;

verus! {

/// The closed set of folder operations, one variant per wire code.
///
/// Codes are grouped by resource: workspace operations in the low band,
/// app, view and trash operations in higher bands. The grouping is a
/// naming convention; only the exact per-variant code is load-bearing.
#[derive(Clone, Copy, PartialEq, Eq, Structural, Debug, Hash)]
pub enum FolderEvent {
    CreateWorkspace,
    ReadCurWorkspace,
    ReadWorkspaces,
    DeleteWorkspace,
    OpenWorkspace,
    ReadWorkspaceApps,
    CreateApp,
    DeleteApp,
    ReadApp,
    UpdateApp,
    CreateView,
    ReadView,
    UpdateView,
    DeleteView,
    DuplicateView,
    CopyLink,
    SetLatestView,
    CloseView,
    MoveFolderItem,
    ReadTrash,
    PutbackTrash,
    DeleteTrash,
    RestoreAllTrash,
    DeleteAllTrash,
}

impl FolderEvent {
    /// The wire code of each event, pinned explicitly so that reordering
    /// the declarations above can never change a published code.
    pub open spec fn code_spec(self) -> int {
        match self {
            FolderEvent::CreateWorkspace => 0,
            FolderEvent::ReadCurWorkspace => 1,
            FolderEvent::ReadWorkspaces => 2,
            FolderEvent::DeleteWorkspace => 3,
            FolderEvent::OpenWorkspace => 4,
            FolderEvent::ReadWorkspaceApps => 5,
            FolderEvent::CreateApp => 101,
            FolderEvent::DeleteApp => 102,
            FolderEvent::ReadApp => 103,
            FolderEvent::UpdateApp => 104,
            FolderEvent::CreateView => 201,
            FolderEvent::ReadView => 202,
            FolderEvent::UpdateView => 203,
            FolderEvent::DeleteView => 204,
            FolderEvent::DuplicateView => 205,
            FolderEvent::CopyLink => 206,
            FolderEvent::SetLatestView => 207,
            FolderEvent::CloseView => 208,
            FolderEvent::MoveFolderItem => 209,
            FolderEvent::ReadTrash => 300,
            FolderEvent::PutbackTrash => 301,
            FolderEvent::DeleteTrash => 302,
            FolderEvent::RestoreAllTrash => 303,
            FolderEvent::DeleteAllTrash => 304,
        }
    }

    /// The event registered under a wire code, if any. Codes outside the
    /// declared set decode to `None`.
    pub open spec fn from_code(c: int) -> Option<FolderEvent> {
        if c == 0 {
            Some(FolderEvent::CreateWorkspace)
        } else if c == 1 {
            Some(FolderEvent::ReadCurWorkspace)
        } else if c == 2 {
            Some(FolderEvent::ReadWorkspaces)
        } else if c == 3 {
            Some(FolderEvent::DeleteWorkspace)
        } else if c == 4 {
            Some(FolderEvent::OpenWorkspace)
        } else if c == 5 {
            Some(FolderEvent::ReadWorkspaceApps)
        } else if c == 101 {
            Some(FolderEvent::CreateApp)
        } else if c == 102 {
            Some(FolderEvent::DeleteApp)
        } else if c == 103 {
            Some(FolderEvent::ReadApp)
        } else if c == 104 {
            Some(FolderEvent::UpdateApp)
        } else if c == 201 {
            Some(FolderEvent::CreateView)
        } else if c == 202 {
            Some(FolderEvent::ReadView)
        } else if c == 203 {
            Some(FolderEvent::UpdateView)
        } else if c == 204 {
            Some(FolderEvent::DeleteView)
        } else if c == 205 {
            Some(FolderEvent::DuplicateView)
        } else if c == 206 {
            Some(FolderEvent::CopyLink)
        } else if c == 207 {
            Some(FolderEvent::SetLatestView)
        } else if c == 208 {
            Some(FolderEvent::CloseView)
        } else if c == 209 {
            Some(FolderEvent::MoveFolderItem)
        } else if c == 300 {
            Some(FolderEvent::ReadTrash)
        } else if c == 301 {
            Some(FolderEvent::PutbackTrash)
        } else if c == 302 {
            Some(FolderEvent::DeleteTrash)
        } else if c == 303 {
            Some(FolderEvent::RestoreAllTrash)
        } else if c == 304 {
            Some(FolderEvent::DeleteAllTrash)
        } else {
            None
        }
    }

    /// All declared events, in declaration order (not numeric order).
    pub open spec fn all_events_spec() -> Seq<FolderEvent> {
        seq![
            FolderEvent::CreateWorkspace,
            FolderEvent::ReadCurWorkspace,
            FolderEvent::ReadWorkspaces,
            FolderEvent::DeleteWorkspace,
            FolderEvent::OpenWorkspace,
            FolderEvent::ReadWorkspaceApps,
            FolderEvent::CreateApp,
            FolderEvent::DeleteApp,
            FolderEvent::ReadApp,
            FolderEvent::UpdateApp,
            FolderEvent::CreateView,
            FolderEvent::ReadView,
            FolderEvent::UpdateView,
            FolderEvent::DeleteView,
            FolderEvent::DuplicateView,
            FolderEvent::CopyLink,
            FolderEvent::SetLatestView,
            FolderEvent::CloseView,
            FolderEvent::MoveFolderItem,
            FolderEvent::ReadTrash,
            FolderEvent::PutbackTrash,
            FolderEvent::DeleteTrash,
            FolderEvent::RestoreAllTrash,
            FolderEvent::DeleteAllTrash,
        ]
    }

    /// The symbolic name of each event, as it appears in the schema.
    pub open spec fn name_spec(self) -> Seq<char> {
        match self {
            FolderEvent::CreateWorkspace => "CreateWorkspace"@,
            FolderEvent::ReadCurWorkspace => "ReadCurWorkspace"@,
            FolderEvent::ReadWorkspaces => "ReadWorkspaces"@,
            FolderEvent::DeleteWorkspace => "DeleteWorkspace"@,
            FolderEvent::OpenWorkspace => "OpenWorkspace"@,
            FolderEvent::ReadWorkspaceApps => "ReadWorkspaceApps"@,
            FolderEvent::CreateApp => "CreateApp"@,
            FolderEvent::DeleteApp => "DeleteApp"@,
            FolderEvent::ReadApp => "ReadApp"@,
            FolderEvent::UpdateApp => "UpdateApp"@,
            FolderEvent::CreateView => "CreateView"@,
            FolderEvent::ReadView => "ReadView"@,
            FolderEvent::UpdateView => "UpdateView"@,
            FolderEvent::DeleteView => "DeleteView"@,
            FolderEvent::DuplicateView => "DuplicateView"@,
            FolderEvent::CopyLink => "CopyLink"@,
            FolderEvent::SetLatestView => "SetLatestView"@,
            FolderEvent::CloseView => "CloseView"@,
            FolderEvent::MoveFolderItem => "MoveFolderItem"@,
            FolderEvent::ReadTrash => "ReadTrash"@,
            FolderEvent::PutbackTrash => "PutbackTrash"@,
            FolderEvent::DeleteTrash => "DeleteTrash"@,
            FolderEvent::RestoreAllTrash => "RestoreAllTrash"@,
            FolderEvent::DeleteAllTrash => "DeleteAllTrash"@,
        }
    }

    /// The wire code of this event. Total: every event has exactly one code.
    pub fn value(&self) -> (c: i32)
        ensures
            c == self.code_spec(),
    {
        match self {
            FolderEvent::CreateWorkspace => 0,
            FolderEvent::ReadCurWorkspace => 1,
            FolderEvent::ReadWorkspaces => 2,
            FolderEvent::DeleteWorkspace => 3,
            FolderEvent::OpenWorkspace => 4,
            FolderEvent::ReadWorkspaceApps => 5,
            FolderEvent::CreateApp => 101,
            FolderEvent::DeleteApp => 102,
            FolderEvent::ReadApp => 103,
            FolderEvent::UpdateApp => 104,
            FolderEvent::CreateView => 201,
            FolderEvent::ReadView => 202,
            FolderEvent::UpdateView => 203,
            FolderEvent::DeleteView => 204,
            FolderEvent::DuplicateView => 205,
            FolderEvent::CopyLink => 206,
            FolderEvent::SetLatestView => 207,
            FolderEvent::CloseView => 208,
            FolderEvent::MoveFolderItem => 209,
            FolderEvent::ReadTrash => 300,
            FolderEvent::PutbackTrash => 301,
            FolderEvent::DeleteTrash => 302,
            FolderEvent::RestoreAllTrash => 303,
            FolderEvent::DeleteAllTrash => 304,
        }
    }

    /// Decode a wire code. Partial: an unknown code is ordinary data
    /// (a peer built against another schema version), never an error.
    pub fn from_i32(value: i32) -> (r: Option<FolderEvent>)
        ensures
            r == Self::from_code(value as int),
    {
        match value {
            0 => Some(FolderEvent::CreateWorkspace),
            1 => Some(FolderEvent::ReadCurWorkspace),
            2 => Some(FolderEvent::ReadWorkspaces),
            3 => Some(FolderEvent::DeleteWorkspace),
            4 => Some(FolderEvent::OpenWorkspace),
            5 => Some(FolderEvent::ReadWorkspaceApps),
            101 => Some(FolderEvent::CreateApp),
            102 => Some(FolderEvent::DeleteApp),
            103 => Some(FolderEvent::ReadApp),
            104 => Some(FolderEvent::UpdateApp),
            201 => Some(FolderEvent::CreateView),
            202 => Some(FolderEvent::ReadView),
            203 => Some(FolderEvent::UpdateView),
            204 => Some(FolderEvent::DeleteView),
            205 => Some(FolderEvent::DuplicateView),
            206 => Some(FolderEvent::CopyLink),
            207 => Some(FolderEvent::SetLatestView),
            208 => Some(FolderEvent::CloseView),
            209 => Some(FolderEvent::MoveFolderItem),
            300 => Some(FolderEvent::ReadTrash),
            301 => Some(FolderEvent::PutbackTrash),
            302 => Some(FolderEvent::DeleteTrash),
            303 => Some(FolderEvent::RestoreAllTrash),
            304 => Some(FolderEvent::DeleteAllTrash),
            _ => None,
        }
    }

    /// All declared events, in declaration order.
    pub fn values() -> (r: Vec<FolderEvent>)
        ensures
            r@ == Self::all_events_spec(),
    {
        let mut v: Vec<FolderEvent> = Vec::new();
        v.push(FolderEvent::CreateWorkspace);
        v.push(FolderEvent::ReadCurWorkspace);
        v.push(FolderEvent::ReadWorkspaces);
        v.push(FolderEvent::DeleteWorkspace);
        v.push(FolderEvent::OpenWorkspace);
        v.push(FolderEvent::ReadWorkspaceApps);
        v.push(FolderEvent::CreateApp);
        v.push(FolderEvent::DeleteApp);
        v.push(FolderEvent::ReadApp);
        v.push(FolderEvent::UpdateApp);
        v.push(FolderEvent::CreateView);
        v.push(FolderEvent::ReadView);
        v.push(FolderEvent::UpdateView);
        v.push(FolderEvent::DeleteView);
        v.push(FolderEvent::DuplicateView);
        v.push(FolderEvent::CopyLink);
        v.push(FolderEvent::SetLatestView);
        v.push(FolderEvent::CloseView);
        v.push(FolderEvent::MoveFolderItem);
        v.push(FolderEvent::ReadTrash);
        v.push(FolderEvent::PutbackTrash);
        v.push(FolderEvent::DeleteTrash);
        v.push(FolderEvent::RestoreAllTrash);
        v.push(FolderEvent::DeleteAllTrash);
        proof {
            assert(v@ =~= Self::all_events_spec());
        }
        v
    }

    /// The symbolic name of this event.
    pub fn name(&self) -> (r: &'static str)
        ensures
            r@ == self.name_spec(),
    {
        match self {
            FolderEvent::CreateWorkspace => "CreateWorkspace",
            FolderEvent::ReadCurWorkspace => "ReadCurWorkspace",
            FolderEvent::ReadWorkspaces => "ReadWorkspaces",
            FolderEvent::DeleteWorkspace => "DeleteWorkspace",
            FolderEvent::OpenWorkspace => "OpenWorkspace",
            FolderEvent::ReadWorkspaceApps => "ReadWorkspaceApps",
            FolderEvent::CreateApp => "CreateApp",
            FolderEvent::DeleteApp => "DeleteApp",
            FolderEvent::ReadApp => "ReadApp",
            FolderEvent::UpdateApp => "UpdateApp",
            FolderEvent::CreateView => "CreateView",
            FolderEvent::ReadView => "ReadView",
            FolderEvent::UpdateView => "UpdateView",
            FolderEvent::DeleteView => "DeleteView",
            FolderEvent::DuplicateView => "DuplicateView",
            FolderEvent::CopyLink => "CopyLink",
            FolderEvent::SetLatestView => "SetLatestView",
            FolderEvent::CloseView => "CloseView",
            FolderEvent::MoveFolderItem => "MoveFolderItem",
            FolderEvent::ReadTrash => "ReadTrash",
            FolderEvent::PutbackTrash => "PutbackTrash",
            FolderEvent::DeleteTrash => "DeleteTrash",
            FolderEvent::RestoreAllTrash => "RestoreAllTrash",
            FolderEvent::DeleteAllTrash => "DeleteAllTrash",
        }
    }
}

/// The fallback event is the first declared entry.
impl Default for FolderEvent {
    fn default() -> (r: Self)
        ensures
            r == FolderEvent::all_events_spec()[0],
    {
        FolderEvent::CreateWorkspace
    }
}

/// Encoding then decoding any declared event yields the event itself.
pub proof fn lemma_code_round_trip(e: FolderEvent)
    ensures
        FolderEvent::from_code(e.code_spec()) == Some(e),
{
}

/// A decoded event carries exactly the code it was decoded from.
pub proof fn lemma_from_code_sound(c: int, e: FolderEvent)
    requires
        FolderEvent::from_code(c) == Some(e),
    ensures
        e.code_spec() == c,
{
}

/// A code that no declared event carries decodes to nothing.
pub proof fn lemma_undeclared_code_none(c: int)
    requires
        forall|e: FolderEvent| e.code_spec() != c,
    ensures
        FolderEvent::from_code(c) is None,
{
    match FolderEvent::from_code(c) {
        Some(e) => {
            lemma_from_code_sound(c, e);
            assert(false);
        },
        None => {},
    }
}

/// No two distinct events share a wire code: encoding is injective.
pub proof fn lemma_codes_injective(a: FolderEvent, b: FolderEvent)
    requires
        a != b,
    ensures
        a.code_spec() != b.code_spec(),
{
}

/// No two distinct events share a symbolic name.
pub proof fn lemma_names_injective(a: FolderEvent, b: FolderEvent)
    requires
        a != b,
    ensures
        a.name_spec() != b.name_spec(),
{
    reveal_strlit("CreateWorkspace");
    reveal_strlit("ReadCurWorkspace");
    reveal_strlit("ReadWorkspaces");
    reveal_strlit("DeleteWorkspace");
    reveal_strlit("OpenWorkspace");
    reveal_strlit("ReadWorkspaceApps");
    reveal_strlit("CreateApp");
    reveal_strlit("DeleteApp");
    reveal_strlit("ReadApp");
    reveal_strlit("UpdateApp");
    reveal_strlit("CreateView");
    reveal_strlit("ReadView");
    reveal_strlit("UpdateView");
    reveal_strlit("DeleteView");
    reveal_strlit("DuplicateView");
    reveal_strlit("CopyLink");
    reveal_strlit("SetLatestView");
    reveal_strlit("CloseView");
    reveal_strlit("MoveFolderItem");
    reveal_strlit("ReadTrash");
    reveal_strlit("PutbackTrash");
    reveal_strlit("DeleteTrash");
    reveal_strlit("RestoreAllTrash");
    reveal_strlit("DeleteAllTrash");
    let an = a.name_spec();
    let bn = b.name_spec();
    assert(an.len() != bn.len() || an[0] != bn[0] || an[1] != bn[1]);
}

/// The declared events are pairwise distinct, so the declaration list
/// has exactly one entry per event.
pub proof fn lemma_all_events_distinct()
    ensures
        FolderEvent::all_events_spec().len() == 24,
        forall|i: int, j: int|
            0 <= i < j < FolderEvent::all_events_spec().len()
                ==> FolderEvent::all_events_spec()[i] != FolderEvent::all_events_spec()[j],
{
    assert forall|i: int, j: int|
        0 <= i < j < FolderEvent::all_events_spec().len()
            implies FolderEvent::all_events_spec()[i] != FolderEvent::all_events_spec()[j] by {
        assert(FolderEvent::all_events_spec()[i].code_spec()
            != FolderEvent::all_events_spec()[j].code_spec());
    }
}

} // verus!
