use vstd::prelude::*;

verus! {

/// Score that a freshly imported item starts from.
pub const BASELINE_SCORE: i64 = 1500;

/// One ranked entity of a list, as the item store reports it.
#[derive(Debug, Clone)]
pub struct Item {
    pub id: String,
    pub name: String,
    /// Embeddable preview of the item, when the source has one.
    pub iframe: Option<String>,
    pub wins: u64,
    pub losses: u64,
    pub score: i64,
}

/// How the next pair is chosen.
#[derive(Debug, Clone, Copy, PartialEq, Eq, Structural)]
pub enum Mode {
    /// Two items drawn at random from the whole collection on every call.
    Match,
    /// Every item is shown once before any item repeats.
    Round,
}

/// The mode that a session's `mode` option selects: `"rounds"` picks
/// `Round`; anything else, or no option at all, falls back to `Match`.
pub open spec fn mode_of(param: Option<Seq<char>>) -> Mode {
    if param == Some("rounds"@) {
        Mode::Round
    } else {
        Mode::Match
    }
}

impl Mode {
    pub fn from_param(param: Option<&str>) -> (r: Mode)
        ensures
            r == mode_of(
                match param {
                    Some(s) => Some(s@),
                    None => None,
                },
            ),
    {
        match param {
            Some(s) => {
                let given = s.to_owned();
                let rounds = "rounds".to_owned();
                proof {
                    reveal_strlit("rounds");
                }
                if given == rounds {
                    Mode::Round
                } else {
                    Mode::Match
                }
            },
            None => Mode::Match,
        }
    }
}

impl Item {
    /// A new item with an empty record and the baseline score.
    pub fn new(id: String, name: String, iframe: Option<String>) -> (r: Item)
        ensures
            r.id == id,
            r.name == name,
            r.iframe == iframe,
            r.wins == 0,
            r.losses == 0,
            r.score == BASELINE_SCORE,
    {
        Item { id, name, iframe, wins: 0, losses: 0, score: BASELINE_SCORE }
    }

    /// A field-by-field copy of the item.
    pub fn duplicate(&self) -> (r: Item)
        ensures
            r == *self,
    {
        let iframe = match &self.iframe {
            Some(s) => Some(s.clone()),
            None => None,
        };
        Item {
            id: self.id.clone(),
            name: self.name.clone(),
            iframe,
            wins: self.wins,
            losses: self.losses,
            score: self.score,
        }
    }
}

/// A copy of a collection snapshot, item for item.
pub fn copy_items(items: &Vec<Item>) -> (r: Vec<Item>)
    ensures
        r@ == items@,
{
    let mut out: Vec<Item> = Vec::new();
    let mut i: usize = 0;
    while i < items.len()
        invariant
            i <= items.len(),
            out@ == items@.take(i as int),
        decreases items.len() - i,
    {
        out.push(items[i].duplicate());
        i = i + 1;
        assert(out@ =~= items@.take(i as int));
    }
    assert(out@ =~= items@);
    out
}

/// No two items of the sequence share an identifier.
pub open spec fn ids_unique(s: Seq<Item>) -> bool {
    forall|i: int, j: int| 0 <= i < s.len() && 0 <= j < s.len() && i != j ==> s[i].id != s[j].id
}

} // verus!
