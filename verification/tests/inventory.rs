use manga_shelf::api::is_success_status;
use manga_shelf::inventory::{read_status, InventoryManga, MangaTable, ReadStatus};

fn entry(id: &str, num_read: u8, is_favorite: bool) -> InventoryManga {
    InventoryManga {
        id: id.to_owned(),
        num_read,
        is_favorite,
        manga_data: None,
    }
}

#[test]
fn default_table_holds_the_starter_entries() {
    let store = MangaTable::default();

    assert!(!store.reversed);
    assert_eq!(store.manga_list.len(), 4);

    let ids: Vec<&str> = store.manga_list.iter().map(|e| e.id.as_str()).collect();
    assert_eq!(ids, vec!["66", "78", "88", "99"]);

    let reads: Vec<u8> = store.manga_list.iter().map(|e| e.num_read).collect();
    assert_eq!(reads, vec![1, 17, 0, 17]);

    let favorites: Vec<bool> = store.manga_list.iter().map(|e| e.is_favorite).collect();
    assert_eq!(favorites, vec![false, true, false, true]);

    assert!(store.manga_list.iter().all(|e| e.manga_data.is_none()));
}

#[test]
fn display_index_is_identity_in_default_order() {
    let store = MangaTable {
        reversed: false,
        manga_list: vec![entry("1", 0, false), entry("2", 0, false), entry("3", 0, false)],
    };
    assert_eq!(store.display_index(0), 0);
    assert_eq!(store.display_index(2), 2);
}

#[test]
fn display_index_mirrors_rows_when_reversed() {
    let store = MangaTable {
        reversed: true,
        manga_list: vec![entry("1", 0, false), entry("2", 0, false), entry("3", 0, false)],
    };
    assert_eq!(store.display_index(0), 2);
    assert_eq!(store.display_index(1), 1);
    assert_eq!(store.display_index(2), 0);
}

#[test]
fn toggle_reversed_flips_only_the_flag() {
    let mut store = MangaTable {
        reversed: false,
        manga_list: vec![entry("1", 3, true)],
    };
    store.toggle_reversed();
    assert!(store.reversed);
    assert_eq!(store.manga_list.len(), 1);
    assert_eq!(store.manga_list[0].id, "1");
    store.toggle_reversed();
    assert!(!store.reversed);
}

#[test]
fn set_favorite_touches_only_the_keyed_entry() {
    let mut store = MangaTable {
        reversed: false,
        manga_list: vec![entry("1", 3, false), entry("2", 0, false)],
    };

    let found = store.set_favorite(&"1".to_owned(), true);
    assert!(found);
    assert!(store.manga_list[0].is_favorite);
    assert_eq!(store.manga_list[0].num_read, 3);
    assert!(!store.manga_list[1].is_favorite);
}

#[test]
fn set_favorite_for_absent_id_reports_not_found() {
    let mut store = MangaTable {
        reversed: false,
        manga_list: vec![entry("1", 3, false)],
    };

    let found = store.set_favorite(&"9".to_owned(), true);
    assert!(!found);
    assert!(!store.manga_list[0].is_favorite);
}

#[test]
fn remove_entry_drops_only_the_keyed_entry() {
    let mut store = MangaTable {
        reversed: false,
        manga_list: vec![entry("1", 0, false), entry("2", 5, true)],
    };

    let removed = store.remove_entry(&"2".to_owned()).expect("entry 2 present");
    assert_eq!(removed.id, "2");
    assert_eq!(removed.num_read, 5);
    assert_eq!(store.manga_list.len(), 1);
    assert_eq!(store.manga_list[0].id, "1");

    assert!(store.remove_entry(&"2".to_owned()).is_none());
    assert_eq!(store.manga_list.len(), 1);
}

#[test]
fn read_status_without_volume_count_is_unknown() {
    assert!(matches!(read_status(None, 0), ReadStatus::Unknown));
    assert!(matches!(read_status(None, 200), ReadStatus::Unknown));
}

#[test]
fn read_status_counts_unread_volumes() {
    assert!(matches!(read_status(Some(5), 2), ReadStatus::Unread(3)));
    assert!(matches!(read_status(Some(200), 0), ReadStatus::Unread(200)));
}

#[test]
fn read_status_is_read_at_or_past_the_volume_count() {
    assert!(matches!(read_status(Some(5), 5), ReadStatus::Read));
    assert!(matches!(read_status(Some(5), 7), ReadStatus::Read));
    assert!(matches!(read_status(Some(0), 0), ReadStatus::Read));
}

#[test]
fn success_statuses_are_exactly_the_two_hundreds() {
    assert!(!is_success_status(199));
    assert!(is_success_status(200));
    assert!(is_success_status(204));
    assert!(is_success_status(299));
    assert!(!is_success_status(300));
    assert!(!is_success_status(404));
    assert!(!is_success_status(500));
}

#[test]
fn len_and_get_expose_entries_by_position() {
    let store = MangaTable {
        reversed: false,
        manga_list: vec![entry("1", 0, false), entry("2", 9, true)],
    };
    assert_eq!(store.len(), 2);
    assert_eq!(store.get(1).id, "2");
    assert_eq!(store.get(1).num_read, 9);
}
