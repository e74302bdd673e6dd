use vstd::prelude::*;

verus! {

/// One value of a chart: its dotted path and what stands under it.
#[derive(Debug)]
pub struct PathValue {
    pub path: String,
    pub value: serde_yaml::Value,
}

/// The index of the first entry from `from` on with the given path; the
/// number of entries where there is none.
pub open spec fn path_index(entries: Seq<(Seq<char>, serde_yaml::Value)>, path: Seq<char>, from: int)
    -> int
    decreases entries.len() - from,
{
    if from < 0 || from >= entries.len() {
        entries.len() as int
    } else if entries[from].0 == path {
        from
    } else {
        path_index(entries, path, from + 1)
    }
}

/// The entries after `value` is put under `path`: in the place of the entry
/// with that path where there is one, and at the end where there is none.
pub open spec fn inserted(
    entries: Seq<(Seq<char>, serde_yaml::Value)>,
    path: Seq<char>,
    value: serde_yaml::Value,
) -> Seq<(Seq<char>, serde_yaml::Value)> {
    let index = path_index(entries, path, 0);
    if index < entries.len() {
        entries.update(index, (path, value))
    } else {
        entries.push((path, value))
    }
}

/// No two entries have the same path.
pub open spec fn distinct_paths(entries: Seq<(Seq<char>, serde_yaml::Value)>) -> bool {
    forall|i: int, j: int|
        0 <= i < j < entries.len() ==> (#[trigger] entries[i]).0 != (#[trigger] entries[j]).0
}

/// The values of a chart by their dotted paths, such as `image.tag`, in the
/// order in which the paths were first put in.
#[derive(Debug)]
pub struct ChartValues {
    values: Vec<PathValue>,
}

impl View for ChartValues {
    type V = Seq<(Seq<char>, serde_yaml::Value)>;

    closed spec fn view(&self) -> Seq<(Seq<char>, serde_yaml::Value)> {
        Seq::new(self.values@.len(), |i: int| (self.values@[i].path@, self.values@[i].value))
    }
}

impl ChartValues {
    pub fn new() -> (made: ChartValues)
        ensures
            made@ == Seq::<(Seq<char>, serde_yaml::Value)>::empty(),
            distinct_paths(made@),
    {
        let made = ChartValues { values: Vec::new() };
        assert(made@ == Seq::<(Seq<char>, serde_yaml::Value)>::empty());
        made
    }

    /// Puts `value` under `value_path`. A value that stood under that path
    /// gives way to the new one.
    pub fn insert(&mut self, value_path: String, value: serde_yaml::Value)
        ensures
            final(self)@ == inserted(old(self)@, value_path@, value),
            distinct_paths(old(self)@) ==> distinct_paths(final(self)@),
    {
        proof {
            if distinct_paths(old(self)@) {
                lemma_inserted_distinct(old(self)@, value_path@, value);
            }
        }
        let mut i: usize = 0;
        while i < self.values.len()
            invariant
                i <= self.values.len(),
                self.values == old(self).values,
                path_index(old(self)@, value_path@, 0) == path_index(
                    old(self)@,
                    value_path@,
                    i as int,
                ),
            decreases self.values.len() - i,
        {
            if self.values[i].path == value_path {
                self.values[i].value = value;
                assert(self@ == old(self)@.update(i as int, (value_path@, value)));
                return ;
            }
            i = i + 1;
        }
        self.values.push(PathValue { path: value_path, value });
        assert(self@ == old(self)@.push((value_path@, value)));
    }

    /// The number of paths.
    pub fn len(&self) -> (count: usize)
        ensures
            count == self@.len(),
    {
        self.values.len()
    }

    /// The paths with their values, in the order in which the paths were
    /// first put in.
    pub fn entries(&self) -> (entries: &Vec<PathValue>)
        ensures
            entries@.len() == self@.len(),
            forall|i: int|
                0 <= i < entries@.len() ==> (#[trigger] entries@[i]).path@ == self@[i].0
                    && entries@[i].value == self@[i].1,
    {
        &self.values
    }

    /// The value under `path`, where there is one.
    pub fn get(&self, path: &String) -> (found: Option<&serde_yaml::Value>)
        ensures
            match found {
                Some(value) => path_index(self@, path@, 0) < self@.len() && *value == self@[path_index(
                    self@,
                    path@,
                    0,
                )].1,
                None => path_index(self@, path@, 0) == self@.len(),
            },
    {
        let mut i: usize = 0;
        while i < self.values.len()
            invariant
                i <= self.values.len(),
                path_index(self@, path@, 0) == path_index(self@, path@, i as int),
            decreases self.values.len() - i,
        {
            if self.values[i].path == *path {
                return Some(&self.values[i].value);
            }
            i = i + 1;
        }
        None
    }
}

/// Putting a value in keeps the paths distinct.
pub proof fn lemma_inserted_distinct(
    entries: Seq<(Seq<char>, serde_yaml::Value)>,
    path: Seq<char>,
    value: serde_yaml::Value,
)
    requires
        distinct_paths(entries),
    ensures
        distinct_paths(inserted(entries, path, value)),
{
    lemma_path_index(entries, path, 0);
}

/// `path_index` finds the first entry with the path.
pub proof fn lemma_path_index(
    entries: Seq<(Seq<char>, serde_yaml::Value)>,
    path: Seq<char>,
    from: int,
)
    requires
        0 <= from <= entries.len(),
    ensures
        from <= path_index(entries, path, from) <= entries.len(),
        forall|k: int| from <= k < path_index(entries, path, from) ==> entries[k].0 != path,
        path_index(entries, path, from) < entries.len() ==> entries[path_index(
            entries,
            path,
            from,
        )].0 == path,
    decreases entries.len() - from,
{
    if from < entries.len() && entries[from].0 != path {
        lemma_path_index(entries, path, from + 1);
    }
}

} // verus!
