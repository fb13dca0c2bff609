use vstd::prelude::*;
use vstd::string::*;

verus! {

/// The mathematical value of a task: its id, its title as characters, and
/// whether it is done.
pub ghost struct TaskView {
    pub id: u64,
    pub title: Seq<char>,
    pub completed: bool,
}

impl TaskView {
    /// The same task with its completion flag flipped.
    pub open spec fn flipped(self) -> TaskView {
        TaskView { completed: !self.completed, ..self }
    }
}

/// The character of a decimal digit `d < 10`.
pub open spec fn digit_char(d: nat) -> char {
    if d == 0 { '0' } else if d == 1 { '1' } else if d == 2 { '2' } else if d == 3 { '3' }
    else if d == 4 { '4' } else if d == 5 { '5' } else if d == 6 { '6' } else if d == 7 { '7' }
    else if d == 8 { '8' } else { '9' }
}

/// The decimal digits of `n`, most significant first, without leading zeros
/// (`0` is written as one digit).
pub open spec fn decimal(n: nat) -> Seq<char>
    decreases n,
{
    if n < 10 {
        seq![digit_char(n)]
    } else {
        decimal(n / 10).push(digit_char(n % 10))
    }
}

/// The status marker of a task line: a tick when done, a blank when pending.
pub open spec fn status_marker(completed: bool) -> Seq<char> {
    if completed {
        seq!['[', '\u{2713}', ']']
    } else {
        seq!['[', ' ', ']']
    }
}

/// A task as one line of text: its id in decimal, its status marker, a dash
/// and its title, separated by spaces.
pub open spec fn rendered(t: TaskView) -> Seq<char> {
    decimal(t.id as nat) + seq![' '] + status_marker(t.completed) + seq![' ', '-', ' '] + t.title
}

/// The one-digit string for `d`.
fn digit_str(d: u64) -> (r: &'static str)
    requires
        d < 10,
    ensures
        r@ == seq![digit_char(d as nat)],
{
    proof {
        reveal_strlit("0");
        reveal_strlit("1");
        reveal_strlit("2");
        reveal_strlit("3");
        reveal_strlit("4");
        reveal_strlit("5");
        reveal_strlit("6");
        reveal_strlit("7");
        reveal_strlit("8");
        reveal_strlit("9");
    }
    if d == 0 { "0" } else if d == 1 { "1" } else if d == 2 { "2" } else if d == 3 { "3" }
    else if d == 4 { "4" } else if d == 5 { "5" } else if d == 6 { "6" } else if d == 7 { "7" }
    else if d == 8 { "8" } else { "9" }
}

/// `n` written in decimal.
pub fn decimal_string(n: u64) -> (r: String)
    ensures
        r@ == decimal(n as nat),
{
    let mut s = String::from_str(digit_str(n % 10));
    let mut m: u64 = n / 10;
    assert(decimal(n as nat) == if m == 0 { s@ } else { decimal(m as nat) + s@ });
    while m > 0
        invariant
            decimal(n as nat) == if m == 0 { s@ } else { decimal(m as nat) + s@ },
        decreases m,
    {
        let ghost old_s = s@;
        let d = String::from_str(digit_str(m % 10));
        s = d.concat(s.as_str());
        assert(decimal(m as nat) + old_s =~= (if m / 10 == 0 { s@ } else { decimal((m / 10) as nat) + s@ }));
        m = m / 10;
    }
    s
}

/// A single to-do item. Its id and title are fixed at creation; only the
/// completion flag changes.
pub struct Task {
    id: u64,
    title: String,
    completed: bool,
}

impl View for Task {
    type V = TaskView;

    closed spec fn view(&self) -> TaskView {
        TaskView { id: self.id, title: self.title@, completed: self.completed }
    }
}

impl Task {
    /// A new, not yet completed task.
    pub fn new(id: u64, title: String) -> (t: Task)
        ensures
            t@ == (TaskView { id, title: title@, completed: false }),
    {
        Task { id, title, completed: false }
    }

    pub fn id(&self) -> (r: u64)
        ensures
            r == self@.id,
    {
        self.id
    }

    pub fn title(&self) -> (r: &String)
        ensures
            r@ == self@.title,
    {
        &self.title
    }

    pub fn is_completed(&self) -> (r: bool)
        ensures
            r == self@.completed,
    {
        self.completed
    }

    /// The task written out: its id, its status marker, a dash and
    /// its title, separated by spaces.
    pub fn display(&self) -> (r: String)
        ensures
            r@ == rendered(self@),
    {
        proof {
            reveal_strlit(" ");
            reveal_strlit("[\u{2713}]");
            reveal_strlit("[ ]");
            reveal_strlit(" - ");
        }
        let mut s = decimal_string(self.id);
        s.append(" ");
        if self.completed {
            s.append("[\u{2713}]");
        } else {
            s.append("[ ]");
        }
        s.append(" - ");
        s.append(self.title.as_str());
        assert(s@ =~= rendered(self@));
        s
    }

    /// Flips the completion flag; id and title stay as they are.
    pub fn toggle_status(&mut self)
        ensures
            final(self)@ == old(self)@.flipped(),
    {
        self.completed = !self.completed;
    }
}

} // verus!
