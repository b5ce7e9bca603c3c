//! The symbols of an executable: named ranges of code.

use vstd::prelude::*;

verus! {

/// A named range of code. `low_pc` is the address of its first instruction,
/// `high_pc` the number of bytes that its instructions take.
#[derive(Clone, Debug, PartialEq, Eq)]
pub struct Symbol {
    pub name: String,
    pub low_pc: u64,
    pub high_pc: u64,
}

/// Where the code of a symbol lies: the address of its first instruction and
/// the number of bytes that its instructions take.
pub struct Extent {
    pub low_pc: u64,
    pub high_pc: u64,
}

impl Symbol {
    /// Where the code of this symbol lies.
    pub open spec fn extent(&self) -> Extent {
        Extent { low_pc: self.low_pc, high_pc: self.high_pc }
    }
}

/// The symbol table of an executable: at most one symbol for each name.
#[derive(Debug, PartialEq, Eq)]
pub struct DebugInfo {
    symbols: Vec<Symbol>,
}

/// Whether no two symbols of the list share a name.
pub open spec fn distinct_names(list: Seq<Symbol>) -> bool {
    forall|i: int, j: int|
        0 <= i < j < list.len() ==> (#[trigger] list[i]).name@ != (#[trigger] list[j]).name@
}

/// Whether the list holds a symbol of this name.
pub open spec fn names(list: Seq<Symbol>, name: Seq<char>) -> bool {
    exists|i: int| 0 <= i < list.len() && (#[trigger] list[i]).name@ == name
}

/// The table that a list of symbols stands for: each name mapped to where
/// the code of the symbol lies that bears it.
pub open spec fn table_of(list: Seq<Symbol>) -> Map<Seq<char>, Extent> {
    Map::new(
        |name: Seq<char>| names(list, name),
        |name: Seq<char>|
            list[choose|i: int|
                0 <= i < list.len() && (#[trigger] list[i]).name@ == name].extent(),
    )
}

/// In a list without repeated names, each symbol is the one its name maps to.
pub proof fn lemma_table_of_entry(list: Seq<Symbol>, i: int)
    requires
        distinct_names(list),
        0 <= i < list.len(),
    ensures
        table_of(list).contains_key(list[i].name@),
        table_of(list)[list[i].name@] == list[i].extent(),
{
    let name = list[i].name@;
    assert(names(list, name));
    let k = choose|k: int| 0 <= k < list.len() && (#[trigger] list[k]).name@ == name;
    if k < i {
        assert(list[k].name@ != list[i].name@);
    } else if i < k {
        assert(list[i].name@ != list[k].name@);
    }
}

impl View for DebugInfo {
    type V = Map<Seq<char>, Extent>;

    closed spec fn view(&self) -> Map<Seq<char>, Extent> {
        table_of(self.symbols@)
    }
}

impl DebugInfo {
    #[verifier::type_invariant]
    spec fn well_formed(&self) -> bool {
        distinct_names(self.symbols@)
    }

    /// The symbols in the order in which their names first came in.
    pub closed spec fn list(&self) -> Seq<Symbol> {
        self.symbols@
    }

    /// The empty table.
    pub fn empty() -> (r: DebugInfo)
        ensures
            r@ == Map::<Seq<char>, Extent>::empty(),
            r.list() == Seq::<Symbol>::empty(),
    {
        let r = DebugInfo { symbols: Vec::new() };
        assert(r@ =~= Map::<Seq<char>, Extent>::empty());
        r
    }

    /// How many symbols the table holds.
    pub fn len(&self) -> (r: usize)
        ensures
            r == self.list().len(),
    {
        self.symbols.len()
    }

    /// Where in the list the symbol of this name stands, if there is one.
    fn position(&self, name: &String) -> (r: Option<usize>)
        ensures
            match r {
                Some(i) => i < self.symbols@.len() && self.symbols@[i as int].name@ == name@,
                None => !names(self.symbols@, name@),
            },
    {
        let mut i: usize = 0;
        while i < self.symbols.len()
            invariant
                i <= self.symbols@.len(),
                forall|k: int| 0 <= k < i ==> (#[trigger] self.symbols@[k]).name@ != name@,
            decreases self.symbols@.len() - i,
        {
            if self.symbols[i].name == *name {
                return Some(i);
            }
            i += 1;
        }
        None
    }

    /// Puts a symbol into the table. A symbol that bore the same name is
    /// replaced.
    pub fn insert(&mut self, symbol: Symbol)
        ensures
            final(self)@ == old(self)@.insert(symbol.name@, symbol.extent()),
            final(self).list() == (if names(old(self).list(), symbol.name@) {
                let i = choose|i: int|
                    0 <= i < old(self).list().len() && (#[trigger] old(self).list()[i]).name@
                        == symbol.name@;
                old(self).list().update(i, symbol)
            } else {
                old(self).list().push(symbol)
            }),
    {
        proof {
            use_type_invariant(&*self);
        }
        let ghost before = self.symbols@;
        let found = self.position(&symbol.name);
        let mut list: Vec<Symbol> = Vec::new();
        core::mem::swap(&mut self.symbols, &mut list);
        match found {
            Some(i) => {
                proof {
                    let k = choose|k: int|
                        0 <= k < before.len() && (#[trigger] before[k]).name@ == symbol.name@;
                    if k < i {
                        assert(before[k].name@ != before[i as int].name@);
                    } else if i < k {
                        assert(before[i as int].name@ != before[k].name@);
                    }
                    assert(k == i);
                }
                list.set(i, symbol);
            },
            None => {
                list.push(symbol);
            },
        }
        proof {
            let after = list@;
            assert(distinct_names(after));
            assert forall|name: Seq<char>| #[trigger]
                table_of(after).contains_key(name) <==> table_of(before).insert(
                    symbol.name@,
                    symbol.extent(),
                ).contains_key(name) by {
                if names(after, name) {
                    let k = choose|k: int| 0 <= k < after.len() && (#[trigger] after[k]).name@ == name;
                    if name != symbol.name@ {
                        assert(before[k].name@ == name);
                    }
                }
                if name == symbol.name@ {
                    match found {
                        Some(i) => {
                            assert(after[i as int].name@ == name);
                        },
                        None => {
                            assert(after[after.len() - 1].name@ == name);
                        },
                    }
                } else if names(before, name) {
                    let k = choose|k: int|
                        0 <= k < before.len() && (#[trigger] before[k]).name@ == name;
                    assert(after[k].name@ == name);
                }
            }
            assert forall|name: Seq<char>| #[trigger] table_of(after).contains_key(name) implies table_of(
                after,
            )[name] == table_of(before).insert(symbol.name@, symbol.extent())[name] by {
                let k = choose|k: int| 0 <= k < after.len() && (#[trigger] after[k]).name@ == name;
                lemma_table_of_entry(after, k);
                if name == symbol.name@ {
                    match found {
                        Some(i) => {
                            lemma_table_of_entry(after, i as int);
                        },
                        None => {
                            lemma_table_of_entry(after, after.len() - 1);
                        },
                    }
                } else {
                    assert(before[k] == after[k]);
                    lemma_table_of_entry(before, k);
                }
            }
            assert(table_of(after) =~= table_of(before).insert(symbol.name@, symbol.extent()));
        }
        self.symbols = list;
    }

    /// The symbol of this name, if the table holds one. Names are compared
    /// letter for letter.
    pub fn get(&self, name: &str) -> (r: Option<&Symbol>)
        ensures
            match r {
                Some(symbol) => {
                    &&& self@.contains_key(name@)
                    &&& symbol.name@ == name@
                    &&& symbol.extent() == self@[name@]
                },
                None => !self@.contains_key(name@),
            },
    {
        proof {
            use_type_invariant(self);
        }
        let owned = name.to_owned();
        match self.position(&owned) {
            Some(i) => {
                proof {
                    lemma_table_of_entry(self.symbols@, i as int);
                }
                Some(&self.symbols[i])
            },
            None => None,
        }
    }

    /// Every symbol of the table, each once. The table is the one that this
    /// list stands for.
    pub fn symbols(&self) -> (r: &Vec<Symbol>)
        ensures
            r@ == self.list(),
            distinct_names(r@),
            self@ == table_of(r@),
    {
        proof {
            use_type_invariant(self);
        }
        &self.symbols
    }
}

} // verus!
