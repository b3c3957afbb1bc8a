use verse::App;
use verse::BibleBook;
use verse::Command;
use verse::LoadError;

/// Builds an empty but well-formed verse source at `path`: every chapter of
/// every book reads back as legitimately empty.
fn build_empty_source(path: &str) {
    let conn = rusqlite::Connection::open(path).expect("open fixture");
    conn.execute_batch(
        "DROP TABLE IF EXISTS ASV_verses;
         CREATE TABLE ASV_verses (book_id INTEGER, chapter INTEGER, text TEXT);",
    )
    .expect("create table");
}

fn fresh_app(path: &str) -> App {
    build_empty_source(path);
    App::init(path).expect("init")
}

#[test]
fn init_starts_at_the_first_book() {
    let app = fresh_app("/tmp/verse_nav_init.db");
    assert_eq!(app.db.current_book(), BibleBook::Genesis);
    assert_eq!(app.current_chapter, 1);
    assert_eq!(app.current_scroll, 0);
    assert!(!app.show_book_menu);
    assert!(app.book_input_string.is_empty());
    assert!(!app.should_close);
}

#[test]
fn chapter_prev_at_first_chapter_is_a_no_op() {
    let mut app = fresh_app("/tmp/verse_nav_prev.db");
    app.prev_chapter();
    assert_eq!(app.current_chapter, 1);
    app.next_chapter();
    app.prev_chapter();
    assert_eq!(app.current_chapter, 1);
}

#[test]
fn chapter_next_at_last_chapter_is_a_no_op() {
    let mut app = fresh_app("/tmp/verse_nav_next.db");
    let max = app.db.current_book().max_chapter_count();
    for _ in 0..max + 10 {
        app.next_chapter();
    }
    assert_eq!(app.current_chapter, max);
    app.next_chapter();
    assert_eq!(app.current_chapter, max);
}

#[test]
fn scroll_is_floored_at_zero() {
    let mut app = fresh_app("/tmp/verse_nav_scroll.db");
    app.scroll_up();
    assert_eq!(app.current_scroll, 0);
    app.scroll_down();
    app.scroll_down();
    assert_eq!(app.current_scroll, 2);
    app.scroll_up();
    assert_eq!(app.current_scroll, 1);
}

#[test]
fn menu_typing_resolves_job_exactly_at_its_key() {
    let mut app = fresh_app("/tmp/verse_nav_job.db");
    app.toggle_menu();
    assert!(app.show_book_menu);

    app.update_state('j').expect("append");
    assert!(app.show_book_menu);
    assert_eq!(app.book_input_string, "j");
    assert_eq!(app.db.current_book(), BibleBook::Genesis);

    app.update_state('o').expect("append");
    assert!(app.show_book_menu);
    assert_eq!(app.book_input_string, "jo");
    assert_eq!(app.db.current_book(), BibleBook::Genesis);

    app.update_state('b').expect("append");
    assert!(!app.show_book_menu);
    assert_eq!(app.db.current_book(), BibleBook::Job);
    assert_eq!(app.current_chapter, 1);
    assert_eq!(app.current_scroll, 0);
    assert!(app.book_input_string.is_empty());
}

#[test]
fn switching_books_resets_chapter_and_scroll() {
    let mut app = fresh_app("/tmp/verse_nav_reset.db");
    app.next_chapter();
    app.next_chapter();
    app.scroll_down();
    app.scroll_down();
    app.scroll_down();
    assert_eq!(app.current_chapter, 3);
    assert_eq!(app.current_scroll, 3);

    app.toggle_menu();
    app.update_state('r').expect("append");
    app.update_state('u').expect("append");
    assert_eq!(app.db.current_book(), BibleBook::Ruth);
    assert_eq!(app.current_chapter, 1);
    assert_eq!(app.current_scroll, 0);
    assert!(!app.show_book_menu);
}

#[test]
fn typing_outside_the_menu_is_ignored() {
    let mut app = fresh_app("/tmp/verse_nav_outside.db");
    app.update_state('r').expect("append");
    app.update_state('u').expect("append");
    assert_eq!(app.db.current_book(), BibleBook::Genesis);
    assert!(app.book_input_string.is_empty());
}

#[test]
fn a_full_buffer_ignores_further_typing() {
    let mut app = fresh_app("/tmp/verse_nav_full.db");
    app.toggle_menu();
    for _ in 0..10 {
        app.update_state('x').expect("append");
    }
    assert_eq!(app.book_input_string, "xxxxxx");
    assert!(app.show_book_menu);
}

#[test]
fn toggle_menu_clears_the_buffer() {
    let mut app = fresh_app("/tmp/verse_nav_toggle.db");
    app.toggle_menu();
    app.update_state('j').expect("append");
    assert_eq!(app.book_input_string, "j");
    app.toggle_menu();
    assert!(app.book_input_string.is_empty());
    assert!(!app.show_book_menu);
    app.toggle_menu();
    assert!(app.show_book_menu);
    assert!(app.book_input_string.is_empty());
}

#[test]
fn failed_switch_keeps_the_store_and_surfaces_the_error() {
    let path = "/tmp/verse_nav_failed_switch.db";
    let mut app = fresh_app(path);
    app.next_chapter();
    app.scroll_down();
    app.toggle_menu();
    app.update_state('j').expect("append");
    // Break the source, then finish typing the key for Job.
    let saboteur = rusqlite::Connection::open(path).expect("reopen fixture");
    saboteur
        .execute_batch("DROP TABLE ASV_verses;")
        .expect("drop table");
    let r = app.update_state('o').and_then(|()| app.update_state('b'));
    assert_eq!(r, Err(LoadError::ChapterFetchFailed));
    // The store keeps the old book and its cache intact...
    assert_eq!(app.db.current_book(), BibleBook::Genesis);
    assert_eq!(app.db.get_chapter(1), Some(&Vec::new()));
    // ...while the navigation resets and the menu closes as on any switch.
    assert_eq!(app.current_chapter, 1);
    assert_eq!(app.current_scroll, 0);
    assert!(!app.show_book_menu);
    assert!(app.book_input_string.is_empty());
}

#[test]
fn commands_drive_the_same_transitions() {
    let mut app = fresh_app("/tmp/verse_nav_commands.db");
    app.apply(Command::ChapterNext).expect("next");
    assert_eq!(app.current_chapter, 2);
    app.apply(Command::ScrollDown).expect("down");
    assert_eq!(app.current_scroll, 1);
    app.apply(Command::ScrollUp).expect("up");
    assert_eq!(app.current_scroll, 0);
    app.apply(Command::ToggleMenu).expect("menu");
    // Chapter commands act only in reading mode.
    app.apply(Command::ChapterPrev).expect("prev");
    assert_eq!(app.current_chapter, 2);
    app.apply(Command::AppendMenuChar('o')).expect("append");
    assert_eq!(app.db.current_book(), BibleBook::Obadiah);
    assert_eq!(app.current_chapter, 1);
}

#[test]
fn quit_is_terminal() {
    let mut app = fresh_app("/tmp/verse_nav_quit.db");
    app.apply(Command::Quit).expect("quit");
    assert!(app.should_close);
    app.apply(Command::ChapterNext).expect("ignored");
    assert_eq!(app.current_chapter, 1);
    app.apply(Command::ToggleMenu).expect("ignored");
    assert!(!app.show_book_menu);
}
