//! Navigation between the two pages of the shell, driven by keypresses.
use vstd::prelude::*;

verus! {

/// The page that the content region shows.
#[derive(Clone, Copy, Debug, PartialEq, Eq, Structural)]
pub enum Page {
    Welcome,
    Home,
}

/// A key event, as far as the shell tells keys apart.
#[derive(Clone, Copy, Debug, PartialEq, Eq, Structural)]
pub enum Key {
    /// A key that types a character.
    Char(char),
    /// Any other key (arrows, function keys, ...).
    Other,
}

/// What the run loop does after an event.
#[derive(Clone, Copy, Debug, PartialEq, Eq, Structural)]
pub enum Control {
    Continue,
    Quit,
}

/// The whole state of the shell: the page that is active.
#[derive(Clone, Copy, Debug, PartialEq, Eq, Structural)]
pub struct App {
    pub page: Page,
}

/// Whether the key ends the run loop.
pub open spec fn is_quit(k: Key) -> bool {
    k == Key::Char('q')
}

/// The page a key leads to, if it is a navigation key.
pub open spec fn key_target(k: Key) -> Option<Page> {
    if k == Key::Char('h') {
        Some(Page::Home)
    } else if k == Key::Char('w') {
        Some(Page::Welcome)
    } else {
        None
    }
}

/// The page after key `k` is pressed on page `p` (a quit key leaves it as it is).
pub open spec fn next_page(p: Page, k: Key) -> Page {
    match key_target(k) {
        Some(t) => t,
        None => p,
    }
}

/// The page after each key of `keys` is pressed in turn, starting on `p`.
pub open spec fn pages_after(p: Page, keys: Seq<Key>) -> Page
    decreases keys.len(),
{
    if keys.len() == 0 {
        p
    } else {
        pages_after(next_page(p, keys[0]), keys.drop_first())
    }
}

/// The keys that come before the first quit key (all of them if there is none).
pub open spec fn before_quit(keys: Seq<Key>) -> Seq<Key>
    decreases keys.len(),
{
    if keys.len() == 0 || is_quit(keys[0]) {
        Seq::empty()
    } else {
        seq![keys[0]] + before_quit(keys.drop_first())
    }
}

/// Whether some key of `keys` is a quit key.
pub open spec fn has_quit(keys: Seq<Key>) -> bool {
    exists|j: int| 0 <= j < keys.len() && is_quit(keys[j])
}

/// The target of the last navigation key in `keys`, if there is one.
pub open spec fn last_nav(keys: Seq<Key>) -> Option<Page>
    decreases keys.len(),
{
    if keys.len() == 0 {
        None
    } else {
        match last_nav(keys.drop_first()) {
            Some(t) => Some(t),
            None => key_target(keys[0]),
        }
    }
}

impl App {
    /// The state at start-up: the welcome page.
    pub fn new() -> (r: App)
        ensures
            r.page == Page::Welcome,
    {
        App { page: Page::Welcome }
    }

    /// Handles one keypress: `q` asks to quit and changes nothing, `h` goes to the
    /// home page, `w` to the welcome page, and any other key is ignored.
    pub fn handle_key(&mut self, key: Key) -> (c: Control)
        ensures
            c == (if is_quit(key) { Control::Quit } else { Control::Continue }),
            final(self).page == next_page(old(self).page, key),
    {
        match key {
            Key::Char('q') => Control::Quit,
            Key::Char('h') => {
                self.page = Page::Home;
                Control::Continue
            },
            Key::Char('w') => {
                self.page = Page::Welcome;
                Control::Continue
            },
            _ => Control::Continue,
        }
    }

    /// Handles the outcome of one poll: `None` when no key event came (the wait
    /// ran out, or the event was not a key), which changes nothing.
    pub fn handle_event(&mut self, event: Option<Key>) -> (c: Control)
        ensures
            event is None ==> c == Control::Continue && final(self).page == old(self).page,
            event matches Some(k) ==> c == (if is_quit(k) { Control::Quit } else { Control::Continue })
                && final(self).page == next_page(old(self).page, k),
    {
        match event {
            Some(k) => self.handle_key(k),
            None => Control::Continue,
        }
    }

    /// Handles `keys` in order, up to the first quit key. Returns whether a quit
    /// key was met.
    pub fn process_keys(&mut self, keys: &Vec<Key>) -> (quit: bool)
        ensures
            quit == has_quit(keys@),
            final(self).page == pages_after(old(self).page, before_quit(keys@)),
    {
        let ghost start = self.page;
        let mut i: usize = 0;
        assert(keys@.skip(0) =~= keys@);
        while i < keys.len()
            invariant
                i <= keys@.len(),
                start == old(self).page,
                forall|j: int| 0 <= j < i ==> !is_quit(#[trigger] keys@[j]),
                pages_after(self.page, before_quit(keys@.skip(i as int))) == pages_after(
                    start,
                    before_quit(keys@),
                ),
            decreases keys@.len() - i,
        {
            let k = keys[i];
            assert(keys@.skip(i as int)[0] == k);
            if let Control::Quit = self.handle_key(k) {
                assert(before_quit(keys@.skip(i as int)) =~= Seq::<Key>::empty());
                assert(pages_after(self.page, Seq::<Key>::empty()) == self.page);
                return true;
            }
            proof {
                let rest = keys@.skip(i as int);
                assert(rest.drop_first() =~= keys@.skip(i + 1));
                let tail = before_quit(keys@.skip(i + 1));
                assert((seq![k] + tail).drop_first() =~= tail);
            }
            i = i + 1;
        }
        proof {
            assert(keys@.skip(i as int) =~= Seq::<Key>::empty());
        }
        false
    }
}

/// After any run of keys the page is the target of the last navigation key
/// (`h` or `w`) among them, or the starting page if there is none.
pub proof fn lemma_page_follows_last_nav(p: Page, keys: Seq<Key>)
    ensures
        pages_after(p, keys) == (match last_nav(keys) {
            Some(t) => t,
            None => p,
        }),
    decreases keys.len(),
{
    if keys.len() > 0 {
        lemma_page_follows_last_nav(next_page(p, keys[0]), keys.drop_first());
    }
}

/// From start-up, the page after a sequence of keypresses is set by the last
/// `h` or `w` before the first `q` (the welcome page if there is none), and
/// the keys after that `q` are never handled.
pub proof fn lemma_session_page(keys: Seq<Key>)
    ensures
        pages_after(Page::Welcome, before_quit(keys)) == (match last_nav(before_quit(keys)) {
            Some(t) => t,
            None => Page::Welcome,
        }),
{
    lemma_page_follows_last_nav(Page::Welcome, before_quit(keys));
}

/// Pressing one navigation key once or many times leads to its page, from
/// any page: `h` to the home page, `w` to the welcome page.
pub proof fn lemma_repeated_nav_key(p: Page, k: Key, keys: Seq<Key>)
    requires
        k == Key::Char('h') || k == Key::Char('w'),
        keys.len() > 0,
        forall|i: int| 0 <= i < keys.len() ==> keys[i] == k,
    ensures
        pages_after(p, keys) == (if k == Key::Char('h') { Page::Home } else { Page::Welcome }),
    decreases keys.len(),
{
    if keys.len() > 1 {
        let rest = keys.drop_first();
        assert(forall|i: int| 0 <= i < rest.len() ==> rest[i] == keys[i + 1]);
        lemma_repeated_nav_key(next_page(p, keys[0]), k, rest);
    } else {
        assert(keys.drop_first() =~= Seq::<Key>::empty());
        assert(pages_after(next_page(p, k), Seq::<Key>::empty()) == next_page(p, k));
    }
}

/// A key that neither quits nor navigates leaves the page as it is.
pub proof fn lemma_unmapped_key_keeps_page(p: Page, k: Key)
    requires
        !is_quit(k),
        key_target(k) is None,
    ensures
        next_page(p, k) == p,
{
}

} // verus!
