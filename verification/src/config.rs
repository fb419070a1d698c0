//! The configured templates, and how a choice among them is resolved.
use crate::text::texts;
use vstd::prelude::*;

verus! {

/// A template: the label shown to the operator and the `owner/repo` reference
/// it stands for.
#[derive(Clone, Debug, PartialEq, Eq)]
pub struct Repo {
    pub link: String,
    pub name: String,
}

/// The templates of the configuration file, in file order.
#[derive(Debug, PartialEq, Eq)]
pub struct Config {
    pub configs: Vec<Repo>,
}

/// A `Repo` as plain values.
pub struct RepoView {
    pub link: Seq<char>,
    pub name: Seq<char>,
}

impl View for Repo {
    type V = RepoView;

    open spec fn view(&self) -> RepoView {
        RepoView { link: self.link@, name: self.name@ }
    }
}

impl View for Config {
    type V = Seq<RepoView>;

    open spec fn view(&self) -> Seq<RepoView> {
        self.configs@.map_values(|repo: Repo| repo@)
    }
}

/// The labels of the templates, in their order.
pub open spec fn template_names(templates: Seq<RepoView>) -> Seq<Seq<char>> {
    templates.map_values(|template: RepoView| template.name)
}

/// The reference that `chosen` stands for: the link of the first template named
/// so, and `chosen` itself where no template has that name.
pub open spec fn resolved_link(templates: Seq<RepoView>, chosen: Seq<char>) -> Seq<char>
    decreases templates.len(),
{
    if templates.len() == 0 {
        chosen
    } else if templates[0].name == chosen {
        templates[0].link
    } else {
        resolved_link(templates.drop_first(), chosen)
    }
}

impl Config {
    /// The names to choose from, in file order.
    pub fn names(&self) -> (names: Vec<String>)
        ensures
            texts(names@) == template_names(self@),
    {
        let mut names: Vec<String> = Vec::new();
        let mut i: usize = 0;
        while i < self.configs.len()
            invariant
                i <= self.configs.len(),
                names@.len() == i,
                forall|j: int| 0 <= j < i ==> names@[j]@ == self.configs@[j].name@,
            decreases self.configs.len() - i,
        {
            names.push(self.configs[i].name.clone());
            i = i + 1;
        }
        names
    }

    /// Resolves what the operator chose or typed to a template.
    pub fn resolve(&self, chosen: &str) -> (repo: Repo)
        ensures
            repo.name@ == chosen@,
            repo.link@ == resolved_link(self@, chosen@),
    {
        let wanted = String::from_str(chosen);
        let mut i: usize = 0;
        assert(self@.subrange(0, self@.len() as int) =~= self@);
        while i < self.configs.len()
            invariant
                i <= self.configs.len(),
                wanted@ == chosen@,
                resolved_link(self@, chosen@) == resolved_link(
                    self@.subrange(i as int, self@.len() as int),
                    chosen@,
                ),
            decreases self.configs.len() - i,
        {
            let ghost rest = self@.subrange(i as int, self@.len() as int);
            assert(rest.drop_first() =~= self@.subrange(i + 1, self@.len() as int));
            if self.configs[i].name == wanted {
                return Repo { link: self.configs[i].link.clone(), name: wanted };
            }
            i = i + 1;
        }
        Repo { link: wanted.clone(), name: wanted }
    }
}

/// How a choice is resolved: a name that no template has stands for itself,
/// and a name that a template has stands for the link of the first template
/// with that name.
pub proof fn lemma_resolved_link(templates: Seq<RepoView>, chosen: Seq<char>)
    ensures
        (forall|i: int| 0 <= i < templates.len() ==> templates[i].name != chosen)
            ==> resolved_link(templates, chosen) == chosen,
        forall|i: int|
            0 <= i < templates.len() && templates[i].name == chosen && (forall|j: int|
                0 <= j < i ==> templates[j].name != chosen) ==> resolved_link(templates, chosen)
                == (#[trigger] templates[i]).link,
    decreases templates.len(),
{
    if templates.len() > 0 {
        let rest = templates.drop_first();
        lemma_resolved_link(rest, chosen);
        if templates[0].name != chosen {
            assert forall|i: int|
                0 <= i < templates.len() && templates[i].name == chosen && (forall|j: int|
                    0 <= j < i ==> templates[j].name != chosen) implies resolved_link(
                templates,
                chosen,
            ) == (#[trigger] templates[i]).link by {
                assert(rest[i - 1] == templates[i]);
                assert forall|j: int| 0 <= j < i - 1 implies rest[j].name != chosen by {}
            }
            if forall|i: int| 0 <= i < templates.len() ==> templates[i].name != chosen {
                assert forall|i: int| 0 <= i < rest.len() implies rest[i].name != chosen by {}
            }
        }
    }
}

} // verus!
