use vstd::prelude::*;
use vstd::string::*;

verus! {

/// `s` with every occurrence of the quote character `g` written twice, as SQL
/// escapes a quote inside a quoted identifier or literal.
pub open spec fn doubler(s: Seq<char>, g: char) -> Seq<char>
    decreases s.len(),
{
    if s.len() == 0 {
        seq![]
    } else {
        let debut = doubler(s.drop_last(), g);
        if s.last() == g {
            debut + seq![g, g]
        } else {
            debut.push(s.last())
        }
    }
}

/// A name quoted as an SQL identifier.
pub open spec fn identifiant_spec(nom: Seq<char>) -> Seq<char> {
    "\""@ + doubler(nom, '"') + "\""@
}

/// A text quoted as an SQL string literal.
pub open spec fn litteral_spec(texte: Seq<char>) -> Seq<char> {
    "'"@ + doubler(texte, '\'') + "'"@
}

/// The self-test notifications that follow the subscription, one per payload.
pub open spec fn notifications_essai(canal: Seq<char>, contenus: Seq<Seq<char>>) -> Seq<char>
    decreases contenus.len(),
{
    if contenus.len() == 0 {
        seq![]
    } else {
        notifications_essai(canal, contenus.drop_last()) + " NOTIFY "@ + identifiant_spec(canal)
            + ", "@ + litteral_spec(contenus.last()) + ";"@
    }
}

/// The subscribe batch: `LISTEN` on the channel, then one `NOTIFY` on it per
/// self-test payload.
pub open spec fn abonnement_spec(canal: Seq<char>, contenus: Seq<Seq<char>>) -> Seq<char> {
    "LISTEN "@ + identifiant_spec(canal) + ";"@ + notifications_essai(canal, contenus)
}

fn doubler_guillemet(s: &str, g: &str) -> (r: String)
    requires
        g@.len() == 1,
    ensures
        r@ == doubler(s@, g@[0]),
{
    let n = s.unicode_len();
    let q = g.get_char(0);
    let mut r = String::new();
    let mut i: usize = 0;
    while i < n
        invariant
            n == s@.len(),
            i <= n,
            q == g@[0],
            g@.len() == 1,
            r@ == doubler(s@.subrange(0, i as int), q),
        decreases n - i,
    {
        let c = s.get_char(i);
        let ghost avant = r@;
        if c == q {
            r.append(g);
            r.append(g);
            assert(g@ =~= seq![q]);
            assert(r@ =~= avant + seq![q, q]);
        } else {
            r.append(s.substring_char(i, i + 1));
            assert(s@.subrange(i as int, i + 1) =~= seq![c]);
            assert(r@ =~= avant.push(c));
        }
        assert(s@.subrange(0, i + 1).drop_last() =~= s@.subrange(0, i as int));
        i = i + 1;
    }
    assert(s@.subrange(0, n as int) =~= s@);
    r
}

/// Quotes a name as an SQL identifier.
pub fn identifiant_sql(nom: &str) -> (r: String)
    ensures
        r@ == identifiant_spec(nom@),
{
    proof {
        reveal_strlit("\"");
    }
    let r = String::from_str("\"");
    let r = r.concat(doubler_guillemet(nom, "\"").as_str());
    r.concat("\"")
}

/// Quotes a text as an SQL string literal.
pub fn litteral_sql(texte: &str) -> (r: String)
    ensures
        r@ == litteral_spec(texte@),
{
    proof {
        reveal_strlit("'");
    }
    let r = String::from_str("'");
    let r = r.concat(doubler_guillemet(texte, "'").as_str());
    r.concat("'")
}

/// Builds the subscribe batch of a session: `LISTEN` on the channel, then one
/// `NOTIFY` per self-test payload, so that reachability shows even when no
/// one else notifies.
pub fn commande_abonnement(canal: &str, contenus: &Vec<String>) -> (r: String)
    ensures
        r@ == abonnement_spec(canal@, contenus@.map_values(|c: String| c@)),
{
    let id = identifiant_sql(canal);
    let mut r = String::from_str("LISTEN ");
    r.append(id.as_str());
    r.append(";");
    let ghost vues = contenus@.map_values(|c: String| c@);
    let ghost tete = r@;
    assert(tete == "LISTEN "@ + identifiant_spec(canal@) + ";"@);
    let mut i: usize = 0;
    while i < contenus.len()
        invariant
            i <= contenus@.len(),
            vues == contenus@.map_values(|c: String| c@),
            id@ == identifiant_spec(canal@),
            tete == "LISTEN "@ + identifiant_spec(canal@) + ";"@,
            r@ == tete + notifications_essai(canal@, vues.subrange(0, i as int)),
        decreases contenus@.len() - i,
    {
        let lit = litteral_sql(contenus[i].as_str());
        let ghost avant = r@;
        r.append(" NOTIFY ");
        r.append(id.as_str());
        r.append(", ");
        r.append(lit.as_str());
        r.append(";");
        proof {
            let pref = vues.subrange(0, i + 1);
            assert(pref.drop_last() =~= vues.subrange(0, i as int));
            assert(pref.last() == contenus@[i as int]@);
            assert(r@ =~= tete + notifications_essai(canal@, pref));
        }
        i = i + 1;
    }
    assert(vues.subrange(0, contenus@.len() as int) =~= vues);
    r
}

} // verus!
