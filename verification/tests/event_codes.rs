use folder_events::FolderEvent;

#[test]
fn codes_of_declared_events() {
    assert_eq!(FolderEvent::CreateWorkspace.value(), 0);
    assert_eq!(FolderEvent::ReadCurWorkspace.value(), 1);
    assert_eq!(FolderEvent::ReadWorkspaces.value(), 2);
    assert_eq!(FolderEvent::DeleteWorkspace.value(), 3);
    assert_eq!(FolderEvent::OpenWorkspace.value(), 4);
    assert_eq!(FolderEvent::ReadWorkspaceApps.value(), 5);
    assert_eq!(FolderEvent::CreateApp.value(), 101);
    assert_eq!(FolderEvent::DeleteApp.value(), 102);
    assert_eq!(FolderEvent::ReadApp.value(), 103);
    assert_eq!(FolderEvent::UpdateApp.value(), 104);
    assert_eq!(FolderEvent::CreateView.value(), 201);
    assert_eq!(FolderEvent::ReadView.value(), 202);
    assert_eq!(FolderEvent::UpdateView.value(), 203);
    assert_eq!(FolderEvent::DeleteView.value(), 204);
    assert_eq!(FolderEvent::DuplicateView.value(), 205);
    assert_eq!(FolderEvent::CopyLink.value(), 206);
    assert_eq!(FolderEvent::SetLatestView.value(), 207);
    assert_eq!(FolderEvent::CloseView.value(), 208);
    assert_eq!(FolderEvent::MoveFolderItem.value(), 209);
    assert_eq!(FolderEvent::ReadTrash.value(), 300);
    assert_eq!(FolderEvent::PutbackTrash.value(), 301);
    assert_eq!(FolderEvent::DeleteTrash.value(), 302);
    assert_eq!(FolderEvent::RestoreAllTrash.value(), 303);
    assert_eq!(FolderEvent::DeleteAllTrash.value(), 304);
}

#[test]
fn round_trip_every_declared_event() {
    for e in FolderEvent::values() {
        assert_eq!(FolderEvent::from_i32(e.value()), Some(e));
    }
}

#[test]
fn undeclared_codes_decode_to_none() {
    for c in [-1, 6, 100, 105, 200, 210, 299, 305, 999, i32::MIN, i32::MAX] {
        assert_eq!(FolderEvent::from_i32(c), None);
    }
}

#[test]
fn declaration_list_is_duplicate_free_and_complete() {
    let all = FolderEvent::values();
    assert_eq!(all.len(), 24);
    for i in 0..all.len() {
        for j in 0..all.len() {
            if i != j {
                assert_ne!(all[i], all[j]);
            }
        }
    }
}

#[test]
fn default_is_first_declared_event() {
    assert_eq!(FolderEvent::default(), FolderEvent::CreateWorkspace);
    assert_eq!(FolderEvent::default(), FolderEvent::values()[0]);
}

#[test]
fn names_of_declared_events() {
    assert_eq!(FolderEvent::CreateWorkspace.name(), "CreateWorkspace");
    assert_eq!(FolderEvent::CreateApp.name(), "CreateApp");
    assert_eq!(FolderEvent::MoveFolderItem.name(), "MoveFolderItem");
    assert_eq!(FolderEvent::DeleteAllTrash.name(), "DeleteAllTrash");
}
