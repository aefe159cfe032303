use vstd::prelude::*;

verus! {

/// The text placed between the server's version and the database name in the
/// identity reported by the health probe.
pub open spec fn separateur_identite() -> Seq<char> {
    ". Base de données : '"@
}

/// Identity reported by the health probe: the server version followed by the
/// name of the database, quoted.
pub open spec fn identite_spec(version: Seq<char>, base: Seq<char>) -> Seq<char> {
    version + separateur_identite() + base + "'"@
}

/// Builds the identity line of the health probe from the two columns that the
/// probe query returns.
pub fn identite_serveur(version: &str, base: &str) -> (r: String)
    ensures
        r@ == identite_spec(version@, base@),
{
    let r = String::from_str(version);
    let r = r.concat(". Base de données : '");
    let r = r.concat(base);
    r.concat("'")
}

} // verus!
