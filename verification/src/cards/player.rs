use vstd::prelude::*;

verus! {

/// A participant known only by an optional display name.
pub struct Player {
    name: Option<String>,
}

/// Anything that carries an optional display name.
pub trait NamedPlayer {
    /// The name, as a character sequence, if one is set.
    spec fn name_view(&self) -> Option<Seq<char>>;

    fn get_name(&self) -> (r: &Option<String>)
        ensures
            match r {
                Some(n) => self.name_view() == Some(n@),
                None => self.name_view() is None,
            },
    ;

    fn set_name(&mut self, name: String)
        ensures
            final(self).name_view() == Some(name@),
    ;
}

impl Default for Player {
    fn default() -> (p: Player)
        ensures
            p.name_view() is None,
    {
        Player { name: None }
    }
}

impl Player {
    /// The name, as a character sequence, if one is set.
    pub closed spec fn name_view(&self) -> Option<Seq<char>> {
        match self.name {
            Some(n) => Some(n@),
            None => None,
        }
    }

    pub fn new() -> (p: Player)
        ensures
            p.name_view() is None,
    {
        Player { name: None }
    }

    pub fn new_with_name(name: String) -> (p: Player)
        ensures
            p.name_view() == Some(name@),
    {
        Player { name: Some(name) }
    }

    pub fn get_name(&self) -> (r: &Option<String>)
        ensures
            match r {
                Some(n) => self.name_view() == Some(n@),
                None => self.name_view() is None,
            },
    {
        &self.name
    }

    pub fn set_name(&mut self, name: String)
        ensures
            final(self).name_view() == Some(name@),
    {
        self.name = Some(name)
    }
}

impl NamedPlayer for Player {
    open spec fn name_view(&self) -> Option<Seq<char>> {
        Player::name_view(self)
    }

    fn get_name(&self) -> (r: &Option<String>) {
        Player::get_name(self)
    }

    fn set_name(&mut self, name: String) {
        Player::set_name(self, name)
    }
}

} // verus!
