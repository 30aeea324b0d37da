//! Key tiers and their delegation order.
use vstd::prelude::*;

verus! {

/// The tier of an authority key. Delegation flows strictly downwards:
/// Skull > Master > Repo > Ignition > Distro.
#[derive(Debug, Clone, Copy, PartialEq, Eq, Structural)]
pub enum KeyType {
    Skull,
    Master,
    Repo,
    Ignition,
    Distro,
}

impl KeyType {
    /// Position of the tier in the delegation order; higher delegates to lower.
    pub open spec fn rank(self) -> int {
        match self {
            KeyType::Skull => 4,
            KeyType::Master => 3,
            KeyType::Repo => 2,
            KeyType::Ignition => 1,
            KeyType::Distro => 0,
        }
    }

    /// Minimum number of key bytes for the tier.
    pub open spec fn spec_min_key_length(self) -> nat {
        match self {
            KeyType::Skull => 64,
            KeyType::Master => 32,
            KeyType::Repo => 24,
            KeyType::Ignition => 32,
            KeyType::Distro => 16,
        }
    }

    fn rank_exec(self) -> (r: u8)
        ensures
            r as int == self.rank(),
    {
        match self {
            KeyType::Skull => 4,
            KeyType::Master => 3,
            KeyType::Repo => 2,
            KeyType::Ignition => 1,
            KeyType::Distro => 0,
        }
    }

    /// Whether a key of this tier may delegate to (and so control) a key of `other`'s tier.
    pub fn can_control(self, other: KeyType) -> (r: bool)
        ensures
            r == (self.rank() > other.rank()),
    {
        self.rank_exec() > other.rank_exec()
    }

    /// Minimum number of key bytes accepted for keys of this tier.
    pub fn min_key_length(self) -> (r: usize)
        ensures
            r as nat == self.spec_min_key_length(),
    {
        match self {
            KeyType::Skull => 64,
            KeyType::Master => 32,
            KeyType::Repo => 24,
            KeyType::Ignition => 32,
            KeyType::Distro => 16,
        }
    }

    pub open spec fn spec_name(self) -> Seq<char> {
        match self {
            KeyType::Skull => "Skull"@,
            KeyType::Master => "Master"@,
            KeyType::Repo => "Repo"@,
            KeyType::Ignition => "Ignition"@,
            KeyType::Distro => "Distro"@,
        }
    }

    /// The tier's display name.
    pub fn name(self) -> (r: String)
        ensures
            r@ == self.spec_name(),
    {
        match self {
            KeyType::Skull => "Skull".to_string(),
            KeyType::Master => "Master".to_string(),
            KeyType::Repo => "Repo".to_string(),
            KeyType::Ignition => "Ignition".to_string(),
            KeyType::Distro => "Distro".to_string(),
        }
    }
}

/// Delegation is a strict order: no tier controls itself, and it is transitive.
pub proof fn lemma_delegation_strict_order(a: KeyType, b: KeyType, c: KeyType)
    ensures
        !(a.rank() > a.rank()),
        a.rank() > b.rank() && b.rank() > c.rank() ==> a.rank() > c.rank(),
        a.rank() > b.rank() ==> !(b.rank() > a.rank()),
{
}

} // verus!
