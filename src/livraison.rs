use vstd::prelude::*;

use crate::consommateur::{vidage, EtatVidage, IssueVidage, Reception};
use crate::evenement::{Element, EvenementBrut, Lecture, Notification};
use crate::pilote::elements_transmis;

verus! {

/// The polls of a source that yields the given notifications.
pub open spec fn lectures_notifications(ns: Seq<Notification>) -> Seq<Lecture> {
    ns.map_values(|n: Notification| Lecture::Evenement(EvenementBrut::Notification(n)))
}

/// The hand-off items that carry the given notifications.
pub open spec fn elements_notifications(ns: Seq<Notification>) -> Seq<Element> {
    ns.map_values(|n: Notification| Element::Evenement(EvenementBrut::Notification(n)))
}

/// Drain turns that receive the given items one by one, the shutdown flag
/// staying clear.
pub open spec fn receptions(els: Seq<Element>) -> Seq<(bool, Reception)> {
    els.map_values(|e: Element| (true, Reception::Element(e)))
}

/// The consumer's state at the start of an iteration.
pub open spec fn etat_initial() -> EtatVidage {
    EtatVidage { tampon: Seq::empty(), issue: None }
}

proof fn lemma_transmis_notifications(ns: Seq<Notification>, reste: Seq<Lecture>)
    ensures
        elements_transmis(lectures_notifications(ns) + reste) == elements_notifications(ns)
            + elements_transmis(reste),
    decreases ns.len(),
{
    if ns.len() > 0 {
        let l = lectures_notifications(ns) + reste;
        lemma_transmis_notifications(ns.drop_first(), reste);
        assert(l.drop_first() =~= lectures_notifications(ns.drop_first()) + reste);
        assert(elements_notifications(ns) =~= seq![
            Element::Evenement(EvenementBrut::Notification(ns[0])),
        ] + elements_notifications(ns.drop_first()));
        assert(elements_transmis(l) == seq![
            Element::Evenement(EvenementBrut::Notification(ns[0])),
        ] + elements_transmis(l.drop_first()));
    } else {
        assert(lectures_notifications(ns) + reste =~= reste);
        assert(elements_notifications(ns) + elements_transmis(reste) =~= elements_transmis(reste));
    }
}

proof fn lemma_vidage_concat(e: EtatVidage, a: Seq<(bool, Reception)>, b: Seq<(bool, Reception)>)
    ensures
        vidage(e, a + b) == vidage(vidage(e, a), b),
    decreases a.len(),
{
    if a.len() == 0 {
        assert(a + b =~= b);
    } else {
        assert((a + b).drop_first() =~= a.drop_first() + b);
        lemma_vidage_concat(
            crate::consommateur::tour_vidage(e, a[0].0, a[0].1),
            a.drop_first(),
            b,
        );
    }
}

proof fn lemma_vidage_notifications(e: EtatVidage, ns: Seq<Notification>)
    requires
        e.issue is None,
    ensures
        vidage(e, receptions(elements_notifications(ns))) == (EtatVidage {
            tampon: e.tampon + ns,
            issue: None,
        }),
    decreases ns.len(),
{
    let tours = receptions(elements_notifications(ns));
    if ns.len() == 0 {
        assert(e.tampon + ns =~= e.tampon);
    } else {
        let suivant = EtatVidage { tampon: e.tampon.push(ns[0]), issue: None };
        assert(tours.drop_first() =~= receptions(elements_notifications(ns.drop_first())));
        lemma_vidage_notifications(suivant, ns.drop_first());
        assert(e.tampon.push(ns[0]) + ns.drop_first() =~= e.tampon + ns);
    }
}

/// A source that yields notifications and then ends: once the channel closes,
/// the consumer holds every one of them, in the order of the source, and the
/// drain ends on the closed channel.
pub proof fn loi_livraison_complete(ns: Seq<Notification>)
    ensures
        ({
            let els = elements_transmis(lectures_notifications(ns).push(Lecture::Fin));
            let fin = vidage(
                etat_initial(),
                receptions(els).push((true, Reception::CanalFerme)),
            );
            &&& els == elements_notifications(ns)
            &&& fin.tampon == ns
            &&& fin.issue == Some(IssueVidage::CanalFerme)
        }),
{
    let fin_source = seq![Lecture::Fin];
    assert(lectures_notifications(ns).push(Lecture::Fin) =~= lectures_notifications(ns)
        + fin_source);
    lemma_transmis_notifications(ns, fin_source);
    assert(elements_transmis(fin_source) =~= Seq::<Element>::empty());
    let els = elements_notifications(ns);
    assert(els + elements_transmis(fin_source) =~= els);
    let fermeture = seq![(true, Reception::CanalFerme)];
    assert(receptions(els).push((true, Reception::CanalFerme)) =~= receptions(els) + fermeture);
    lemma_vidage_concat(etat_initial(), receptions(els), fermeture);
    lemma_vidage_notifications(etat_initial(), ns);
    assert(Seq::<Notification>::empty() + ns =~= ns);
    let milieu = EtatVidage { tampon: ns, issue: None };
    assert(fermeture.drop_first() =~= Seq::<(bool, Reception)>::empty());
    reveal_with_fuel(vidage, 2);
    assert(vidage(milieu, fermeture) == EtatVidage {
        tampon: ns,
        issue: Some(IssueVidage::CanalFerme),
    });
}

/// A source that yields notifications and then a protocol error: whatever it
/// would yield afterwards, the drain ends in failure and the consumer keeps
/// exactly the notifications received before the error, in order.
pub proof fn loi_erreur_protocole(ns: Seq<Notification>, message: String, reste: Seq<Lecture>)
    ensures
        ({
            let els = elements_transmis(
                lectures_notifications(ns) + seq![Lecture::ErreurProtocole(message)] + reste,
            );
            let fin = vidage(etat_initial(), receptions(els));
            &&& els == elements_notifications(ns).push(Element::ErreurProtocole(message))
            &&& fin.tampon == ns
            &&& fin.issue == Some(IssueVidage::Echec)
        }),
{
    let suite = seq![Lecture::ErreurProtocole(message)] + reste;
    assert(lectures_notifications(ns) + seq![Lecture::ErreurProtocole(message)] + reste
        =~= lectures_notifications(ns) + suite);
    lemma_transmis_notifications(ns, suite);
    assert(suite[0] == Lecture::ErreurProtocole(message));
    let erreur = seq![Element::ErreurProtocole(message)];
    assert(elements_transmis(suite) == erreur);
    let els = elements_notifications(ns);
    assert(els + erreur =~= els.push(Element::ErreurProtocole(message)));
    assert(receptions(els + erreur) =~= receptions(els) + receptions(erreur));
    lemma_vidage_concat(etat_initial(), receptions(els), receptions(erreur));
    lemma_vidage_notifications(etat_initial(), ns);
    assert(Seq::<Notification>::empty() + ns =~= ns);
    let milieu = EtatVidage { tampon: ns, issue: None };
    assert(receptions(erreur).drop_first() =~= Seq::<(bool, Reception)>::empty());
    reveal_with_fuel(vidage, 2);
    assert(vidage(milieu, receptions(erreur)) == EtatVidage {
        tampon: ns,
        issue: Some(IssueVidage::Echec),
    });
}

} // verus!
