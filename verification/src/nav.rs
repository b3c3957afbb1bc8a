use vstd::prelude::*;

use vstd::string::StrSliceExecFns;

use crate::book::BibleBook;
use crate::resolver::book_key;
use crate::resolver::lemma_keys_injective;
use crate::resolver::lemma_keys_prefix_free;
use crate::resolver::minimum_prefix_match;
use crate::store::Database;
use crate::store::LoadError;

verus! {

/// The most characters the book-menu input buffer will hold; typing into a
/// full buffer is ignored.
pub const MENU_BUFFER_MAX: usize = 6;

/// A navigation command, delivered one at a time by the presentation layer.
#[derive(Copy, Clone, PartialEq, Eq, Structural, Debug)]
pub enum Command {
    ToggleMenu,
    ChapterPrev,
    ChapterNext,
    ScrollUp,
    ScrollDown,
    AppendMenuChar(char),
    Quit,
}

/// The navigation state: the current reading position, the book-menu input
/// buffer, and the verse store it orchestrates.
pub struct App {
    pub should_close: bool,
    pub current_chapter: u8,
    pub current_scroll: u16,
    pub show_book_menu: bool,
    pub book_input_string: String,
    pub db: Database,
}

/// Relies on String::push, which appends one character to the string.
#[verifier::external_body]
fn push_char(s: &mut String, c: char)
    ensures
        final(s)@ == old(s)@.push(c),
{
    s.push(c);
}

/// The store is fully loaded, the current chapter lies within the current
/// book, and the menu buffer is within its bound.
pub open spec fn app_wf(a: App) -> bool {
    &&& a.db.wf()
    &&& 1 <= a.current_chapter as int <= a.db.spec_book().spec_max_chapters()
    &&& a.book_input_string@.len() <= MENU_BUFFER_MAX
}

/// The menu visibility flips and the buffer is cleared; reading position,
/// store and close flag are untouched.
pub open spec fn spec_toggle_menu(pre: App, post: App) -> bool {
    &&& post.show_book_menu == !pre.show_book_menu
    &&& post.book_input_string@.len() == 0
    &&& post.current_chapter == pre.current_chapter
    &&& post.current_scroll == pre.current_scroll
    &&& post.db == pre.db
    &&& post.should_close == pre.should_close
}

/// The chapter steps back by one, floored at chapter 1; all else is
/// untouched.
pub open spec fn spec_prev_chapter(pre: App, post: App) -> bool {
    &&& post.current_chapter as int == (if pre.current_chapter as int > 1 {
        pre.current_chapter as int - 1
    } else {
        pre.current_chapter as int
    })
    &&& post.current_scroll == pre.current_scroll
    &&& post.show_book_menu == pre.show_book_menu
    &&& post.book_input_string@ == pre.book_input_string@
    &&& post.db == pre.db
    &&& post.should_close == pre.should_close
}

/// The chapter steps forward by one, capped at the current book's chapter
/// count; all else is untouched.
pub open spec fn spec_next_chapter(pre: App, post: App) -> bool {
    &&& post.current_chapter as int == (if (
        pre.current_chapter as int) < pre.db.spec_book().spec_max_chapters() {
        pre.current_chapter as int + 1
    } else {
        pre.current_chapter as int
    })
    &&& post.current_scroll == pre.current_scroll
    &&& post.show_book_menu == pre.show_book_menu
    &&& post.book_input_string@ == pre.book_input_string@
    &&& post.db == pre.db
    &&& post.should_close == pre.should_close
}

/// The scroll offset steps back by one, floored at 0; all else is untouched.
pub open spec fn spec_scroll_up(pre: App, post: App) -> bool {
    &&& post.current_scroll as int == (if pre.current_scroll as int > 0 {
        pre.current_scroll as int - 1
    } else {
        0
    })
    &&& post.current_chapter == pre.current_chapter
    &&& post.show_book_menu == pre.show_book_menu
    &&& post.book_input_string@ == pre.book_input_string@
    &&& post.db == pre.db
    &&& post.should_close == pre.should_close
}

/// The scroll offset steps forward by one; the engine enforces no ceiling,
/// so only the numeric limit of the counter holds it still. All else is
/// untouched.
pub open spec fn spec_scroll_down(pre: App, post: App) -> bool {
    &&& post.current_scroll as int == (if (pre.current_scroll as int) < 65535 {
        pre.current_scroll as int + 1
    } else {
        65535
    })
    &&& post.current_chapter == pre.current_chapter
    &&& post.show_book_menu == pre.show_book_menu
    &&& post.book_input_string@ == pre.book_input_string@
    &&& post.db == pre.db
    &&& post.should_close == pre.should_close
}

/// The close flag is raised; all else is untouched.
pub open spec fn spec_quit(pre: App, post: App) -> bool {
    &&& post.should_close
    &&& post.current_chapter == pre.current_chapter
    &&& post.current_scroll == pre.current_scroll
    &&& post.show_book_menu == pre.show_book_menu
    &&& post.book_input_string@ == pre.book_input_string@
    &&& post.db == pre.db
}

/// A switch to book `b`: the reader stands at chapter 1 with scroll 0, the
/// menu is closed and the buffer cleared, whether or not the load succeeds.
/// On success the store holds `b` in full; on failure the store keeps its
/// old book and cache exactly as they were, and the load error is surfaced.
pub open spec fn spec_switch(pre: App, b: BibleBook, post: App, r: Result<(), LoadError>) -> bool {
    &&& post.current_chapter == 1
    &&& post.current_scroll == 0
    &&& !post.show_book_menu
    &&& post.book_input_string@.len() == 0
    &&& post.should_close == pre.should_close
    &&& (r is Ok ==> post.db.wf() && post.db.spec_book() == b)
    &&& (r is Err ==> post.db == pre.db)
}

/// How one typed character steps the state. Outside the menu, or with the
/// buffer already full, nothing happens. Otherwise the character extends the
/// buffer; if the extended buffer spells no book's key it simply stays, and
/// if it spells the key of a book the state switches to exactly that book
/// (see `spec_switch`).
pub open spec fn spec_menu_input(pre: App, c: char, post: App, r: Result<(), LoadError>) -> bool {
    let buf2 = pre.book_input_string@.push(c);
    &&& (!pre.show_book_menu ==> post == pre && r is Ok)
    &&& (pre.show_book_menu && pre.book_input_string@.len() >= MENU_BUFFER_MAX ==> post == pre
        && r is Ok)
    &&& (pre.show_book_menu && pre.book_input_string@.len() < MENU_BUFFER_MAX && (forall|
        b: BibleBook,
    | buf2 != book_key(b)) ==> {
        &&& post.book_input_string@ == buf2
        &&& post.current_chapter == pre.current_chapter
        &&& post.current_scroll == pre.current_scroll
        &&& post.show_book_menu
        &&& post.db == pre.db
        &&& post.should_close == pre.should_close
        &&& r is Ok
    })
    &&& (forall|b: BibleBook|
        (pre.show_book_menu && pre.book_input_string@.len() < MENU_BUFFER_MAX && buf2 == book_key(
            b,
        )) ==> spec_switch(pre, b, post, r))
}

/// Law: while the menu is open and the typed character extends the buffer
/// only to a strict prefix of some book's key, no switch happens — the
/// buffer simply grows and the store and menu stay as they were.
pub proof fn lemma_strict_prefix_never_switches(
    pre: App,
    c: char,
    post: App,
    r: Result<(), LoadError>,
    b: BibleBook,
    n: int,
)
    requires
        spec_menu_input(pre, c, post, r),
        pre.show_book_menu,
        pre.book_input_string@.len() < MENU_BUFFER_MAX,
        0 <= n < book_key(b).len(),
        pre.book_input_string@.push(c) == book_key(b).subrange(0, n),
    ensures
        post.db == pre.db,
        post.show_book_menu,
        post.book_input_string@ == pre.book_input_string@.push(c),
        r is Ok,
{
    assert forall|b2: BibleBook| pre.book_input_string@.push(c) != book_key(b2) by {
        lemma_keys_prefix_free(b, b2, n);
    }
}

/// Law: when the typed character completes a book's key in the menu buffer,
/// the machine switches to exactly that book and no other — chapter 1,
/// scroll 0, menu closed, buffer cleared — and, if the load fails, keeps
/// the store's old book and cache intact while surfacing the error.
pub proof fn lemma_full_key_switches(
    pre: App,
    c: char,
    post: App,
    r: Result<(), LoadError>,
    b: BibleBook,
)
    requires
        spec_menu_input(pre, c, post, r),
        pre.show_book_menu,
        pre.book_input_string@.len() < MENU_BUFFER_MAX,
        pre.book_input_string@.push(c) == book_key(b),
    ensures
        spec_switch(pre, b, post, r),
{
}

impl App {
    /// Opens the text source at `path` and starts the reader at the first
    /// book of the catalog: chapter 1, scroll 0, menu closed, empty buffer,
    /// store fully loaded.
    pub fn init(path: &str) -> (r: Result<App, LoadError>)
        ensures
            r matches Ok(app) ==> {
                &&& app_wf(app)
                &&& app.db.spec_book() == BibleBook::Genesis
                &&& app.current_chapter == 1
                &&& app.current_scroll == 0
                &&& !app.show_book_menu
                &&& app.book_input_string@.len() == 0
                &&& !app.should_close
            },
    {
        let db = match Database::connect_and_load(path, BibleBook::Genesis) {
            Ok(db) => db,
            Err(e) => {
                return Err(e);
            },
        };
        Ok(
            App {
                should_close: false,
                current_chapter: 1,
                current_scroll: 0,
                show_book_menu: false,
                book_input_string: String::new(),
                db,
            },
        )
    }

    /// Steps back one chapter; at chapter 1 this is a no-op — the chapter
    /// never wraps and never goes below 1.
    pub fn prev_chapter(&mut self)
        ensures
            spec_prev_chapter(*old(self), *final(self)),
            app_wf(*old(self)) ==> app_wf(*final(self)),
    {
        if self.current_chapter <= 1 {
            return;
        }
        self.current_chapter = self.current_chapter - 1;
    }

    /// Steps forward one chapter; at the last chapter of the current book
    /// this is a no-op.
    pub fn next_chapter(&mut self)
        ensures
            spec_next_chapter(*old(self), *final(self)),
            app_wf(*old(self)) ==> app_wf(*final(self)),
    {
        if self.current_chapter >= self.db.current_book().max_chapter_count() {
            return;
        }
        self.current_chapter = self.current_chapter + 1;
    }

    /// Scrolls up one line, floored at offset 0.
    pub fn scroll_up(&mut self)
        ensures
            spec_scroll_up(*old(self), *final(self)),
            app_wf(*old(self)) ==> app_wf(*final(self)),
    {
        if self.current_scroll > 0 {
            self.current_scroll = self.current_scroll - 1;
        }
    }

    /// Scrolls down one line; no ceiling beyond the counter's numeric limit.
    pub fn scroll_down(&mut self)
        ensures
            spec_scroll_down(*old(self), *final(self)),
            app_wf(*old(self)) ==> app_wf(*final(self)),
    {
        if self.current_scroll < 65535 {
            self.current_scroll = self.current_scroll + 1;
        }
    }

    /// Toggles between reading mode and the book menu, clearing the input
    /// buffer either way.
    pub fn toggle_menu(&mut self)
        ensures
            spec_toggle_menu(*old(self), *final(self)),
            app_wf(*old(self)) ==> app_wf(*final(self)),
    {
        self.show_book_menu = !self.show_book_menu;
        self.book_input_string = String::new();
    }

    /// Raises the close flag: the terminal state of the command machine.
    pub fn quit(&mut self)
        ensures
            spec_quit(*old(self), *final(self)),
            app_wf(*old(self)) ==> app_wf(*final(self)),
    {
        self.should_close = true;
    }

    /// Handles one typed character while the book menu is open: appends it
    /// to the input buffer if the buffer is below its bound, and as soon as
    /// the buffer spells a complete book key switches to that book — chapter
    /// 1, scroll 0, menu closed, buffer cleared — reloading the store. A
    /// failed reload still resets the reading position and closes the menu,
    /// but keeps the store's old book and cache intact and surfaces the
    /// error. Outside the menu the character is ignored.
    pub fn update_state(&mut self, c: char) -> (r: Result<(), LoadError>)
        ensures
            spec_menu_input(*old(self), c, *final(self), r),
            app_wf(*old(self)) ==> app_wf(*final(self)),
    {
        if !self.show_book_menu {
            return Ok(());
        }
        if self.book_input_string.as_str().unicode_len() >= MENU_BUFFER_MAX {
            return Ok(());
        }
        let mut candidate = self.book_input_string.clone();
        push_char(&mut candidate, c);
        match minimum_prefix_match(candidate.as_str()) {
            None => {
                self.book_input_string = candidate;
                Ok(())
            },
            Some(book) => {
                proof {
                    assert forall|b2: BibleBook|
                        old(self).book_input_string@.push(c) == book_key(b2) implies b2 == book by {
                        lemma_keys_injective(book, b2);
                    }
                }
                let load_result = self.db.load_book(book);
                self.current_chapter = 1;
                self.current_scroll = 0;
                self.show_book_menu = false;
                self.book_input_string = String::new();
                load_result
            },
        }
    }

    /// Applies one navigation command. After `Quit` the state is terminal
    /// and every later command is ignored; the chapter commands act only in
    /// reading mode, the menu-character command only with the menu open.
    pub fn apply(&mut self, cmd: Command) -> (r: Result<(), LoadError>)
        ensures
            app_wf(*old(self)) ==> app_wf(*final(self)),
            old(self).should_close ==> *final(self) == *old(self) && r is Ok,
            !old(self).should_close ==> match cmd {
                Command::ToggleMenu => spec_toggle_menu(*old(self), *final(self)) && r is Ok,
                Command::ChapterPrev => (if old(self).show_book_menu {
                    *final(self) == *old(self)
                } else {
                    spec_prev_chapter(*old(self), *final(self))
                }) && r is Ok,
                Command::ChapterNext => (if old(self).show_book_menu {
                    *final(self) == *old(self)
                } else {
                    spec_next_chapter(*old(self), *final(self))
                }) && r is Ok,
                Command::ScrollUp => spec_scroll_up(*old(self), *final(self)) && r is Ok,
                Command::ScrollDown => spec_scroll_down(*old(self), *final(self)) && r is Ok,
                Command::AppendMenuChar(c) => spec_menu_input(*old(self), c, *final(self), r),
                Command::Quit => spec_quit(*old(self), *final(self)) && r is Ok,
            },
    {
        if self.should_close {
            return Ok(());
        }
        match cmd {
            Command::ToggleMenu => {
                self.toggle_menu();
                Ok(())
            },
            Command::ChapterPrev => {
                if !self.show_book_menu {
                    self.prev_chapter();
                }
                Ok(())
            },
            Command::ChapterNext => {
                if !self.show_book_menu {
                    self.next_chapter();
                }
                Ok(())
            },
            Command::ScrollUp => {
                self.scroll_up();
                Ok(())
            },
            Command::ScrollDown => {
                self.scroll_down();
                Ok(())
            },
            Command::AppendMenuChar(c) => self.update_state(c),
            Command::Quit => {
                self.quit();
                Ok(())
            },
        }
    }
}

} // verus!
