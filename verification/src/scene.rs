use vstd::prelude::*;
use crate::state::ShapeKind;

verus! {

/// A scene object: what the viewer decides on, with the placement and
/// colours (`P`) that the caller keeps.
pub struct SceneObject<P> {
    pub name: String,
    pub shape: ShapeKind,
    pub selected: bool,
    pub placement: P,
}

/// The objects of the scene and which one the editor works on.
pub struct Scene<P> {
    pub objects: Vec<SceneObject<P>>,
    pub selected_obj: usize,
}

/// The character of decimal digit `d`.
pub open spec fn digit_char(d: nat) -> char {
    if d == 0 {
        '0'
    } else if d == 1 {
        '1'
    } else if d == 2 {
        '2'
    } else if d == 3 {
        '3'
    } else if d == 4 {
        '4'
    } else if d == 5 {
        '5'
    } else if d == 6 {
        '6'
    } else if d == 7 {
        '7'
    } else if d == 8 {
        '8'
    } else {
        '9'
    }
}

/// `n` written in decimal, without leading zeros.
pub open spec fn decimal(n: nat) -> Seq<char>
    decreases n,
{
    if n < 10 {
        seq![digit_char(n)]
    } else {
        decimal(n / 10).push(digit_char(n % 10))
    }
}

/// The name the editor gives the object added at position `n`.
pub open spec fn object_name_text(n: nat) -> Seq<char> {
    "Object "@ + decimal(n)
}

fn digit_text(d: usize) -> (r: &'static str)
    requires
        d < 10,
    ensures
        r@ == seq![digit_char(d as nat)],
{
    proof {
        reveal_strlit("0");
        reveal_strlit("1");
        reveal_strlit("2");
        reveal_strlit("3");
        reveal_strlit("4");
        reveal_strlit("5");
        reveal_strlit("6");
        reveal_strlit("7");
        reveal_strlit("8");
        reveal_strlit("9");
    }
    let r = if d == 0 {
        "0"
    } else if d == 1 {
        "1"
    } else if d == 2 {
        "2"
    } else if d == 3 {
        "3"
    } else if d == 4 {
        "4"
    } else if d == 5 {
        "5"
    } else if d == 6 {
        "6"
    } else if d == 7 {
        "7"
    } else if d == 8 {
        "8"
    } else {
        "9"
    };
    assert(r@ =~= seq![digit_char(d as nat)]);
    r
}

/// Appends `n` in decimal.
fn append_decimal(s: &mut String, n: usize)
    ensures
        final(s)@ == old(s)@ + decimal(n as nat),
    decreases n,
{
    if n >= 10 {
        append_decimal(s, n / 10);
    }
    s.append(digit_text(n % 10));
    proof {
        if n >= 10 {
            assert(old(s)@ + decimal(n as nat) =~= old(s)@ + decimal((n / 10) as nat) + seq![
                digit_char((n % 10) as nat),
            ]);
        } else {
            assert(n % 10 == n);
        }
    }
}

/// The name of the object added at position `n`: "Object n".
pub fn object_name(n: usize) -> (r: String)
    ensures
        r@ == object_name_text(n as nat),
{
    let mut s = String::from_str("Object ");
    append_decimal(&mut s, n);
    s
}

/// The object `o` with its selection mark set to `b`.
pub open spec fn marked<P>(o: SceneObject<P>, b: bool) -> SceneObject<P> {
    SceneObject { selected: b, ..o }
}

/// The object `o` with its placement replaced by `p`.
pub open spec fn placed<P>(o: SceneObject<P>, p: P) -> SceneObject<P> {
    SceneObject { placement: p, ..o }
}

/// The selection index after the object list shrank to `len` objects.
pub open spec fn clamped_selection(selected: usize, len: nat) -> usize {
    let last: int = if len == 0 { 0 } else { len - 1 };
    if selected <= last { selected } else { last as usize }
}

impl<P> Scene<P> {
    /// A scene holding one cube, named "Cube 0" and selected.
    pub fn with_first_object(placement: P) -> (s: Scene<P>)
        ensures
            s.objects@.len() == 1,
            s.objects@[0].name@ == "Cube 0"@,
            s.objects@[0].shape == ShapeKind::Cube,
            s.objects@[0].selected,
            s.objects@[0].placement == placement,
            s.selected_obj == 0,
    {
        let mut objects = Vec::new();
        objects.push(SceneObject {
            name: String::from_str("Cube 0"),
            shape: ShapeKind::Cube,
            selected: true,
            placement,
        });
        Scene { objects, selected_obj: 0 }
    }

    /// The object the editor works on, if the index points at one.
    pub fn selected_object(&self) -> (r: Option<&SceneObject<P>>)
        ensures
            self.selected_obj < self.objects@.len() ==> r == Some(&self.objects@[self.selected_obj as int]),
            self.selected_obj >= self.objects@.len() ==> r is None,
    {
        if self.selected_obj < self.objects.len() {
            Some(&self.objects[self.selected_obj])
        } else {
            None
        }
    }

    /// The object the editor works on, to be changed in place.
    pub fn selected_object_mut(&mut self) -> (r: Option<&mut SceneObject<P>>)
        ensures
            r is Some <==> old(self).selected_obj < old(self).objects@.len(),
            r matches Some(o) ==> {
                &&& *o == old(self).objects@[old(self).selected_obj as int]
                &&& final(self).objects@ == old(self).objects@.update(old(self).selected_obj as int, *final(o))
                &&& final(self).selected_obj == old(self).selected_obj
            },
            r is None ==> final(self).objects@ == old(self).objects@ && final(self).selected_obj == old(self).selected_obj,
    {
        let i = self.selected_obj;
        if i < self.objects.len() {
            Some(&mut self.objects[i])
        } else {
            None
        }
    }

    /// Replaces the placement of the object the editor works on (used by
    /// "Reset All Settings"); nothing else changes, and nothing at all when
    /// the selection points past the end.
    pub fn set_selected_placement(&mut self, p: P)
        ensures
            final(self).selected_obj == old(self).selected_obj,
            old(self).selected_obj < old(self).objects@.len() ==> final(self).objects@ == old(
                self,
            ).objects@.update(
                old(self).selected_obj as int,
                placed(old(self).objects@[old(self).selected_obj as int], p),
            ),
            old(self).selected_obj >= old(self).objects@.len() ==> final(self).objects@ == old(
                self,
            ).objects@,
    {
        let i = self.selected_obj;
        if i < self.objects.len() {
            self.objects[i].placement = p;
        }
    }

    /// The index of the object the editor works on, if it points at one.
    pub fn selected_index(&self) -> (r: Option<usize>)
        ensures
            self.selected_obj < self.objects@.len() ==> r == Some(self.selected_obj),
            self.selected_obj >= self.objects@.len() ==> r is None,
    {
        if self.selected_obj < self.objects.len() {
            Some(self.selected_obj)
        } else {
            None
        }
    }

    /// Adds a cube with the given name and placement, unselected, at the end.
    pub fn add_object(&mut self, name: String, placement: P)
        ensures
            final(self).objects@ == old(self).objects@.push(
                SceneObject { name, shape: ShapeKind::Cube, selected: false, placement },
            ),
            final(self).selected_obj == old(self).selected_obj,
    {
        self.objects.push(SceneObject { name, shape: ShapeKind::Cube, selected: false, placement });
    }

    /// The editor's "Add Object": a cube named "Object n", where `n` is the
    /// number of objects before, with the given placement, unselected, at the end.
    pub fn add_numbered_object(&mut self, placement: P)
        ensures
            final(self).objects@.len() == old(self).objects@.len() + 1,
            final(self).objects@.drop_last() == old(self).objects@,
            final(self).objects@.last().name@ == object_name_text(old(self).objects@.len()),
            final(self).objects@.last().shape == ShapeKind::Cube,
            !final(self).objects@.last().selected,
            final(self).objects@.last().placement == placement,
            final(self).selected_obj == old(self).selected_obj,
    {
        let name = object_name(self.objects.len());
        self.objects.push(SceneObject { name, shape: ShapeKind::Cube, selected: false, placement });
        assert(self.objects@.drop_last() =~= old(self).objects@);
    }

    /// Removes object `i`; the selection moves to the last object when it
    /// pointed past the end.
    pub fn remove_object(&mut self, i: usize)
        requires
            i < old(self).objects@.len(),
        ensures
            final(self).objects@ == old(self).objects@.remove(i as int),
            final(self).selected_obj == clamped_selection(
                old(self).selected_obj,
                final(self).objects@.len(),
            ),
    {
        self.objects.remove(i);
        let len = self.objects.len();
        let last = if len == 0 {
            0
        } else {
            len - 1
        };
        if self.selected_obj > last {
            self.selected_obj = last;
        }
    }

    /// Makes object `i` the one the editor works on: it alone carries the
    /// selection mark.
    pub fn select_object(&mut self, i: usize)
        ensures
            final(self).selected_obj == i,
            final(self).objects@.len() == old(self).objects@.len(),
            forall|k: int|
                0 <= k < old(self).objects@.len() ==> #[trigger] final(self).objects@[k] == marked(
                    old(self).objects@[k],
                    k == i,
                ),
    {
        let n = self.objects.len();
        let mut k: usize = 0;
        while k < n
            invariant
                n == old(self).objects@.len(),
                self.objects@.len() == n,
                k <= n,
                forall|j: int|
                    0 <= j < k ==> #[trigger] self.objects@[j] == marked(old(self).objects@[j], false),
                forall|j: int| k <= j < n ==> #[trigger] self.objects@[j] == old(self).objects@[j],
            decreases n - k,
        {
            self.objects[k].selected = false;
            k = k + 1;
        }
        self.selected_obj = i;
        if i < n {
            self.objects[i].selected = true;
        }
    }
}

/// With no objects left the selection goes to 0.
pub proof fn lemma_selection_of_empty(selected: usize)
    ensures
        clamped_selection(selected, 0) == 0,
{
}

/// Selecting marks exactly the chosen object and changes nothing else of any object.
pub proof fn lemma_marked<P>(o: SceneObject<P>, b: bool)
    ensures
        marked(o, b).selected == b,
        marked(o, b).name == o.name,
        marked(o, b).shape == o.shape,
        marked(o, b).placement == o.placement,
{
}

/// Replacing the selected placement touches no other object, keeps the
/// selected object's name, shape and mark, and doing it twice with the same
/// placement is the same as doing it once.
pub proof fn lemma_replace_placement<P>(objects: Seq<SceneObject<P>>, sel: int, p: P)
    requires
        0 <= sel < objects.len(),
    ensures
        ({
            let once = objects.update(sel, placed(objects[sel], p));
            &&& once.len() == objects.len()
            &&& forall|k: int| 0 <= k < objects.len() && k != sel ==> #[trigger] once[k] == objects[k]
            &&& once[sel].name == objects[sel].name
            &&& once[sel].shape == objects[sel].shape
            &&& once[sel].selected == objects[sel].selected
            &&& once[sel].placement == p
            &&& once.update(sel, placed(once[sel], p)) == once
        }),
{
    let once = objects.update(sel, placed(objects[sel], p));
    assert(once.update(sel, placed(once[sel], p)) =~= once);
}

/// After a removal the selection points at an object whenever one is left.
pub proof fn lemma_selection_in_range_after_remove(selected: usize, len: nat)
    requires
        len > 0,
        len <= usize::MAX,
    ensures
        clamped_selection(selected, len) < len,
        selected < len ==> clamped_selection(selected, len) == selected,
        selected >= len ==> clamped_selection(selected, len) == len - 1,
{
}

} // verus!
