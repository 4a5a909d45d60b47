//! The state of the theme manager's terminal interface and how it answers
//! keys and ticks.

use vstd::prelude::*;
use vstd::std_specs::iter::IteratorSpec;
use vstd::arithmetic::div_mod::lemma_small_mod;

verus! {

/// A window of points fed from a source: each tick drops the oldest
/// `tick_rate` points and appends up to `tick_rate` new ones from the source.
/// (All fields are public so that contracts can speak of them.)
pub struct Signal<S: Iterator> {
    pub source: S,
    pub points: Vec<S::Item>,
    pub tick_rate: usize,
}

impl<S: Iterator> Signal<S> {
    /// Drops the first `tick_rate` points, then appends the next items of the
    /// source, asking it for at most `tick_rate` items and stopping at its end.
    pub fn on_tick(&mut self)
        requires
            old(self).points@.len() >= old(self).tick_rate,
        ensures
            final(self).tick_rate == old(self).tick_rate,
            final(self).points@.len() <= old(self).points@.len(),
            final(self).points@.subrange(0, old(self).points@.len() - old(self).tick_rate)
                == old(self).points@.skip(old(self).tick_rate as int),
            final(self).source.obeys_prophetic_iter_laws()
                == old(self).source.obeys_prophetic_iter_laws(),
            old(self).source.obeys_prophetic_iter_laws() ==> {
                let rem = old(self).source.remaining();
                let taken = if rem.len() < old(self).tick_rate {
                    rem.len() as int
                } else {
                    old(self).tick_rate as int
                };
                &&& final(self).points@ == old(self).points@.skip(old(self).tick_rate as int)
                    + rem.take(taken)
                &&& final(self).source.remaining() == rem.skip(taken)
            },
            // While the source still holds `tick_rate` items, the window keeps its length.
            old(self).source.obeys_prophetic_iter_laws() && old(self).source.remaining().len()
                >= old(self).tick_rate ==> final(self).points@.len() == old(self).points@.len(),
    {
        let rate: usize = self.tick_rate;
        let ghost old_points = self.points@;
        let mut k: usize = 0;
        while k < rate
            invariant
                k <= rate,
                rate == self.tick_rate,
                old_points.len() >= rate,
                self.points@ =~= old_points.skip(k as int),
                self.source == old(self).source,
            decreases rate - k,
        {
            self.points.remove(0);
            k = k + 1;
        }
        let ghost kept = self.points@;
        let ghost rem0 = self.source.remaining();
        let ghost obeys = self.source.obeys_prophetic_iter_laws();
        assert(obeys == old(self).source.obeys_prophetic_iter_laws());
        let mut n: usize = 0;
        let mut done: bool = false;
        while n < rate && !done
            invariant
                n <= rate,
                rate == self.tick_rate,
                kept == old_points.skip(rate as int),
                self.points@.len() >= kept.len(),
                self.points@.len() <= kept.len() + n,
                self.points@.subrange(0, kept.len() as int) =~= kept,
                obeys == old(self).source.obeys_prophetic_iter_laws(),
                self.source.obeys_prophetic_iter_laws() == obeys,
                obeys ==> {
                    let pushed = self.points@.len() - kept.len();
                    &&& pushed <= rem0.len()
                    &&& self.points@ =~= kept + rem0.take(pushed)
                    &&& self.source.remaining() =~= rem0.skip(pushed)
                    &&& !done ==> pushed == n
                    &&& done ==> pushed == rem0.len() && rem0.len() < rate
                },
            decreases rate - n, if done { 0int } else { 1int },
        {
            match self.source.next() {
                Some(item) => {
                    self.points.push(item);
                    proof {
                        if obeys {
                            let pushed = (self.points@.len() - 1 - kept.len()) as int;
                            assert(rem0.take(pushed + 1) =~= rem0.take(pushed).push(rem0[pushed]));
                            assert(rem0.skip(pushed).drop_first() =~= rem0.skip(pushed + 1));
                        }
                    }
                    n = n + 1;
                },
                None => {
                    done = true;
                },
            }
        }
    }
}

/// A row of tabs and which of them is selected.
pub struct TabsState<'a> {
    pub titles: Vec<&'a str>,
    pub index: usize,
}

impl<'a> TabsState<'a> {
    /// Tabs with these titles, the first selected.
    pub fn new(titles: Vec<&'a str>) -> (t: TabsState<'a>)
        ensures
            t.titles == titles,
            t.index == 0,
    {
        TabsState { titles, index: 0 }
    }

    /// Selects the tab to the right, wrapping round to the first.
    pub fn next(&mut self)
        requires
            old(self).titles.len() > 0,
            old(self).index < usize::MAX,
        ensures
            final(self).titles == old(self).titles,
            final(self).index == (old(self).index + 1) as int % old(self).titles.len() as int,
    {
        self.index = (self.index + 1) % self.titles.len();
    }

    /// Selects the tab to the left, wrapping round to the last.
    pub fn previous(&mut self)
        requires
            old(self).titles.len() > 0,
        ensures
            final(self).titles == old(self).titles,
            final(self).index == if old(self).index > 0 {
                old(self).index - 1
            } else {
                old(self).titles.len() - 1
            },
    {
        if self.index > 0 {
            self.index = self.index - 1;
        } else {
            self.index = self.titles.len() - 1;
        }
    }
}

/// Moving one tab to the right and then one to the left (or the other way
/// round) selects the tab that was selected before.
pub proof fn lemma_tabs_next_previous(len: int, index: int)
    requires
        0 <= index < len,
    ensures
        0 <= (index + 1) % len < len,
        (if (index + 1) % len > 0 {
            (index + 1) % len - 1
        } else {
            len - 1
        }) == index,
        (if index > 0 {
            index - 1
        } else {
            len - 1
        } + 1) % len == index,
{
    if index + 1 < len {
        lemma_small_mod((index + 1) as nat, len as nat);
    } else {
        assert((index + 1) % len == 0) by (nonlinear_arith)
            requires
                index + 1 == len,
                len > 0,
        ;
    }
    if index > 0 {
        lemma_small_mod(index as nat, len as nat);
    } else {
        assert(len % len == 0) by (nonlinear_arith)
            requires
                len > 0,
        ;
    }
}

/// The state of the theme manager's interface that keys change.
pub struct App<'a> {
    pub title: &'a str,
    pub should_quit: bool,
    pub enhanced_graphics: bool,
    pub show_modal: bool,
    pub main_tabs: TabsState<'a>,
}

impl<'a> App<'a> {
    /// A fresh interface showing the "General" and "Bar" tabs, the first one
    /// selected, with no dialog open.
    pub fn new(title: &'a str, enhanced_graphics: bool) -> (app: App<'a>)
        ensures
            app.title == title,
            !app.should_quit,
            app.enhanced_graphics == enhanced_graphics,
            !app.show_modal,
            app.main_tabs.index == 0,
            app.main_tabs.titles@.len() == 2,
            app.main_tabs.titles@[0]@ == "General"@,
            app.main_tabs.titles@[1]@ == "Bar"@,
    {
        App {
            title,
            should_quit: false,
            enhanced_graphics,
            show_modal: false,
            main_tabs: TabsState::new(vec!["General", "Bar"]),
        }
    }

    /// Escape opens the dialog, or closes it when it is open.
    pub fn on_esc(&mut self)
        ensures
            final(self).show_modal == !old(self).show_modal,
            final(self).should_quit == old(self).should_quit,
            final(self).title == old(self).title,
            final(self).enhanced_graphics == old(self).enhanced_graphics,
            final(self).main_tabs == old(self).main_tabs,
    {
        self.show_modal = !self.show_modal;
    }

    /// The up key changes nothing.
    pub fn on_up(&mut self)
        ensures
            *final(self) == *old(self),
    {
    }

    /// The down key changes nothing.
    pub fn on_down(&mut self)
        ensures
            *final(self) == *old(self),
    {
    }

    /// The right key selects the next tab.
    pub fn on_right(&mut self)
        requires
            old(self).main_tabs.titles.len() > 0,
            old(self).main_tabs.index < usize::MAX,
        ensures
            final(self).main_tabs.titles == old(self).main_tabs.titles,
            final(self).main_tabs.index == (old(self).main_tabs.index + 1) as int % old(
                self,
            ).main_tabs.titles.len() as int,
            final(self).show_modal == old(self).show_modal,
            final(self).should_quit == old(self).should_quit,
            final(self).title == old(self).title,
            final(self).enhanced_graphics == old(self).enhanced_graphics,
    {
        self.main_tabs.next();
    }

    /// The left key selects the previous tab.
    pub fn on_left(&mut self)
        requires
            old(self).main_tabs.titles.len() > 0,
        ensures
            final(self).main_tabs.titles == old(self).main_tabs.titles,
            final(self).main_tabs.index == if old(self).main_tabs.index > 0 {
                old(self).main_tabs.index - 1
            } else {
                old(self).main_tabs.titles.len() - 1
            },
            final(self).show_modal == old(self).show_modal,
            final(self).should_quit == old(self).should_quit,
            final(self).title == old(self).title,
            final(self).enhanced_graphics == old(self).enhanced_graphics,
    {
        self.main_tabs.previous();
    }

    /// `q` asks the interface to quit; every other character changes nothing.
    pub fn on_key(&mut self, c: char)
        ensures
            final(self).should_quit == (old(self).should_quit || c == 'q'),
            final(self).show_modal == old(self).show_modal,
            final(self).title == old(self).title,
            final(self).enhanced_graphics == old(self).enhanced_graphics,
            final(self).main_tabs == old(self).main_tabs,
    {
        match c {
            'q' => {
                self.should_quit = true;
            },
            'i' => {},
            _ => {},
        }
    }
}

} // verus!
