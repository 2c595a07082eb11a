//! Service-job stack reservations: request normalization, per-definition totals, and the decisions
//! around locking the owning operation, the player and the Item Bag stacks.
use vstd::prelude::*;

use crate::text::str_eq;

verus! {

#[derive(Clone, Copy, Debug, PartialEq, Eq, PartialOrd, Ord, Hash, Structural)]
pub enum ReservationRole {
    Input,
    Fuel,
}

/// The persisted label of a reservation role.
pub open spec fn spec_role_label(role: ReservationRole) -> Seq<char> {
    match role {
        ReservationRole::Input => "INPUT"@,
        ReservationRole::Fuel => "FUEL"@,
    }
}

/// The role a persisted label names; any other label breaks reservation integrity.
pub open spec fn spec_role_from_label(label: Seq<char>) -> Result<
    ReservationRole,
    ServiceJobReservationError,
> {
    if label == "INPUT"@ {
        Ok(ReservationRole::Input)
    } else if label == "FUEL"@ {
        Ok(ReservationRole::Fuel)
    } else {
        Err(ServiceJobReservationError::ReservationIntegrityMismatch)
    }
}

/// Roles are ordered Input before Fuel.
pub open spec fn spec_role_rank(role: ReservationRole) -> int {
    match role {
        ReservationRole::Input => 0,
        ReservationRole::Fuel => 1,
    }
}

impl ReservationRole {
    /// The persisted label of this role.
    pub fn as_str(self) -> (r: &'static str)
        ensures
            r@ == spec_role_label(self),
    {
        match self {
            ReservationRole::Input => "INPUT",
            ReservationRole::Fuel => "FUEL",
        }
    }

    /// Reads a persisted role label.
    pub fn from_db(value: &str) -> (r: Result<Self, ServiceJobReservationError>)
        ensures
            r == spec_role_from_label(value@),
    {
        if str_eq(value, "INPUT") {
            Ok(ReservationRole::Input)
        } else if str_eq(value, "FUEL") {
            Ok(ReservationRole::Fuel)
        } else {
            Err(ServiceJobReservationError::ReservationIntegrityMismatch)
        }
    }
}

/// Reading back the persisted label of a role gives the role.
pub proof fn lemma_role_label_round_trip(role: ReservationRole)
    ensures
        spec_role_from_label(spec_role_label(role)) == Ok::<
            ReservationRole,
            ServiceJobReservationError,
        >(role),
{
    reveal_strlit("INPUT");
    reveal_strlit("FUEL");
    assert("INPUT"@.len() == 5);
    assert("FUEL"@.len() == 4);
}

#[derive(Clone, Debug, PartialEq, Eq)]
pub struct StackReservationRequest {
    pub role: ReservationRole,
    pub definition_key: String,
    pub definition_version: i32,
    pub quantity: i64,
}

#[derive(Clone, Debug, PartialEq, Eq)]
pub struct ServiceJobReservationRequest {
    pub operation_id: u128,
    pub player_id: u128,
    pub service_kind: String,
    pub policy_version: i32,
    pub stacks: Vec<StackReservationRequest>,
}

#[derive(Clone, Debug, PartialEq, Eq)]
pub struct ServiceJobReservationReceipt {
    pub job_id: u128,
    pub operation_id: u128,
    pub player_id: u128,
    pub service_kind: String,
    pub policy_version: i32,
    pub state: String,
    pub stacks: Vec<StackReservationRequest>,
}

#[derive(Clone, Debug, PartialEq, Eq)]
pub enum ServiceJobReservationError {
    InvalidPolicyVersion,
    InvalidServiceKind,
    EmptyReservations,
    InvalidReservation,
    DuplicateReservation,
    OperationNotFound,
    OperationTerminal(String),
    OperationMismatch,
    PlayerNotFound,
    AccountFrozen(String),
    InsufficientStack {
        definition_key: String,
        definition_version: i32,
        available: i64,
        requested: i64,
    },
    ArithmeticOverflow,
    ReservationConflict,
    ReservationIntegrityMismatch,
}

/// A character with the Unicode White_Space property, the set that trimming removes.
pub open spec fn spec_is_whitespace(c: char) -> bool {
    let u = c as u32;
    ||| 0x9 <= u <= 0xd
    ||| u == 0x20
    ||| u == 0x85
    ||| u == 0xa0
    ||| u == 0x1680
    ||| 0x2000 <= u <= 0x200a
    ||| u == 0x2028
    ||| u == 0x2029
    ||| u == 0x202f
    ||| u == 0x205f
    ||| u == 0x3000
}

/// Canonical text is non-empty and equal to itself trimmed: it neither starts nor ends with
/// whitespace.
pub open spec fn spec_is_canonical_text(s: Seq<char>) -> bool {
    s.len() > 0 && !spec_is_whitespace(s[0]) && !spec_is_whitespace(s[s.len() - 1])
}

fn is_whitespace_char(c: char) -> (r: bool)
    ensures
        r == spec_is_whitespace(c),
{
    let u = c as u32;
    (0x9 <= u && u <= 0xd) || u == 0x20 || u == 0x85 || u == 0xa0 || u == 0x1680 || (0x2000 <= u
        && u <= 0x200a) || u == 0x2028 || u == 0x2029 || u == 0x202f || u == 0x205f || u == 0x3000
}

/// Decides whether text is canonical: non-empty and without surrounding whitespace.
pub fn is_canonical_text(s: &str) -> (r: bool)
    ensures
        r == spec_is_canonical_text(s@),
{
    let n = s.unicode_len();
    if n == 0 {
        return false;
    }
    !is_whitespace_char(s.get_char(0)) && !is_whitespace_char(s.get_char(n - 1))
}

/// Text ordered lexicographically by code point, a proper prefix first. On UTF-8 text this is the
/// byte-wise order of `String`.
pub open spec fn spec_text_less(a: Seq<char>, b: Seq<char>) -> bool
    decreases a.len(),
{
    if a.len() == 0 {
        b.len() > 0
    } else if b.len() == 0 {
        false
    } else if a[0] != b[0] {
        a[0] < b[0]
    } else {
        spec_text_less(a.drop_first(), b.drop_first())
    }
}

/// A common prefix does not decide the order of two texts.
pub proof fn lemma_text_less_skip(a: Seq<char>, b: Seq<char>, i: int)
    requires
        0 <= i <= a.len(),
        i <= b.len(),
        a.subrange(0, i) == b.subrange(0, i),
    ensures
        spec_text_less(a, b) == spec_text_less(
            a.subrange(i, a.len() as int),
            b.subrange(i, b.len() as int),
        ),
    decreases i,
{
    if i == 0 {
        assert(a.subrange(0, a.len() as int) =~= a);
        assert(b.subrange(0, b.len() as int) =~= b);
    } else {
        assert(a[0] == a.subrange(0, i)[0]);
        assert(b[0] == b.subrange(0, i)[0]);
        assert(a.drop_first().subrange(0, i - 1) =~= a.subrange(0, i).drop_first());
        assert(b.drop_first().subrange(0, i - 1) =~= b.subrange(0, i).drop_first());
        lemma_text_less_skip(a.drop_first(), b.drop_first(), i - 1);
        assert(a.drop_first().subrange(i - 1, a.len() - 1) =~= a.subrange(i, a.len() as int));
        assert(b.drop_first().subrange(i - 1, b.len() - 1) =~= b.subrange(i, b.len() as int));
    }
}

/// The text order is a strict total order.
pub proof fn lemma_text_order(a: Seq<char>, b: Seq<char>, c: Seq<char>)
    ensures
        !spec_text_less(a, a),
        spec_text_less(a, b) ==> !spec_text_less(b, a),
        spec_text_less(a, b) && spec_text_less(b, c) ==> spec_text_less(a, c),
        a != b ==> spec_text_less(a, b) || spec_text_less(b, a),
    decreases a.len(),
{
    if a.len() > 0 {
        lemma_text_order(a.drop_first(), a.drop_first(), a.drop_first());
    }
    if a.len() > 0 && b.len() > 0 && c.len() > 0 {
        lemma_text_order(a.drop_first(), b.drop_first(), c.drop_first());
        if a != b && a[0] == b[0] {
            assert(a.drop_first() != b.drop_first()) by {
                if a.drop_first() == b.drop_first() {
                    assert(a =~= seq![a[0]] + a.drop_first());
                    assert(b =~= seq![b[0]] + b.drop_first());
                }
            }
        }
    } else if a.len() > 0 && b.len() > 0 {
        lemma_text_order(a.drop_first(), b.drop_first(), b.drop_first());
        if a != b && a[0] == b[0] {
            assert(a.drop_first() != b.drop_first()) by {
                if a.drop_first() == b.drop_first() {
                    assert(a =~= seq![a[0]] + a.drop_first());
                    assert(b =~= seq![b[0]] + b.drop_first());
                }
            }
        }
    } else if a.len() == 0 && b.len() == 0 {
        assert(a =~= b);
    }
}

/// Decides the text order of two strings.
pub fn text_less(a: &str, b: &str) -> (r: bool)
    ensures
        r == spec_text_less(a@, b@),
{
    let la = a.unicode_len();
    let lb = b.unicode_len();
    let mut i: usize = 0;
    while i < la && i < lb
        invariant
            la == a@.len(),
            lb == b@.len(),
            i <= la,
            i <= lb,
            a@.subrange(0, i as int) == b@.subrange(0, i as int),
        decreases la - i,
    {
        let ca = a.get_char(i);
        let cb = b.get_char(i);
        if ca != cb {
            proof {
                lemma_text_less_skip(a@, b@, i as int);
                assert(a@.subrange(i as int, a@.len() as int)[0] == ca);
                assert(b@.subrange(i as int, b@.len() as int)[0] == cb);
            }
            return ca < cb;
        }
        proof {
            assert(a@.subrange(0, i as int + 1) =~= a@.subrange(0, i as int).push(ca));
            assert(b@.subrange(0, i as int + 1) =~= b@.subrange(0, i as int).push(cb));
        }
        i = i + 1;
    }
    proof {
        lemma_text_less_skip(a@, b@, i as int);
    }
    la < lb
}

/// Two stack reservations name the same role, definition key and definition version.
pub open spec fn spec_same_identity(a: StackReservationRequest, b: StackReservationRequest) -> bool {
    &&& a.role == b.role
    &&& a.definition_key@ == b.definition_key@
    &&& a.definition_version == b.definition_version
}

/// Stack reservations are ordered by role, then definition key, then definition version.
pub open spec fn spec_identity_less(a: StackReservationRequest, b: StackReservationRequest) -> bool {
    ||| spec_role_rank(a.role) < spec_role_rank(b.role)
    ||| spec_role_rank(a.role) == spec_role_rank(b.role) && spec_text_less(
        a.definition_key@,
        b.definition_key@,
    )
    ||| spec_role_rank(a.role) == spec_role_rank(b.role) && a.definition_key@ == b.definition_key@
        && a.definition_version < b.definition_version
}

/// The identity order is a strict order, total on distinct identities.
pub proof fn lemma_identity_order(
    a: StackReservationRequest,
    b: StackReservationRequest,
    c: StackReservationRequest,
)
    ensures
        !spec_identity_less(a, a),
        spec_identity_less(a, b) ==> !spec_identity_less(b, a),
        spec_identity_less(a, b) && spec_identity_less(b, c) ==> spec_identity_less(a, c),
        !spec_same_identity(a, b) ==> spec_identity_less(a, b) || spec_identity_less(b, a),
        spec_identity_less(a, b) ==> !spec_same_identity(a, b),
{
    lemma_text_order(a.definition_key@, b.definition_key@, c.definition_key@);
    lemma_text_order(b.definition_key@, a.definition_key@, c.definition_key@);
}

/// A stack reservation names a canonical definition key, a positive version and a positive
/// quantity.
pub open spec fn spec_stack_valid(stack: StackReservationRequest) -> bool {
    &&& spec_is_canonical_text(stack.definition_key@)
    &&& stack.definition_version > 0
    &&& stack.quantity > 0
}

/// What is wrong with the stack reservation at position `i`, checked in request order: an invalid
/// reservation, or one whose identity an earlier reservation already has.
pub open spec fn spec_stack_problem(stacks: Seq<StackReservationRequest>, i: int) -> Option<
    ServiceJobReservationError,
> {
    if !spec_stack_valid(stacks[i]) {
        Some(ServiceJobReservationError::InvalidReservation)
    } else if exists|j: int| 0 <= j < i && #[trigger] spec_same_identity(stacks[j], stacks[i]) {
        Some(ServiceJobReservationError::DuplicateReservation)
    } else {
        None
    }
}

/// What is wrong with the request as a whole, checked before its stacks.
pub open spec fn spec_request_header_error(request: ServiceJobReservationRequest) -> Option<
    ServiceJobReservationError,
> {
    if request.policy_version <= 0 {
        Some(ServiceJobReservationError::InvalidPolicyVersion)
    } else if !spec_is_canonical_text(request.service_kind@) {
        Some(ServiceJobReservationError::InvalidServiceKind)
    } else if request.stacks@.len() == 0 {
        Some(ServiceJobReservationError::EmptyReservations)
    } else {
        None
    }
}

/// Stack reservations in strictly increasing identity order.
pub open spec fn spec_stacks_sorted(stacks: Seq<StackReservationRequest>) -> bool {
    forall|i: int, j: int|
        0 <= i < j < stacks.len() ==> #[trigger] spec_identity_less(stacks[i], stacks[j])
}

fn same_identity(a: &StackReservationRequest, b: &StackReservationRequest) -> (r: bool)
    ensures
        r == spec_same_identity(*a, *b),
{
    a.role == b.role && a.definition_key == b.definition_key && a.definition_version
        == b.definition_version
}

fn role_rank(role: ReservationRole) -> (r: u8)
    ensures
        r == spec_role_rank(role),
{
    match role {
        ReservationRole::Input => 0,
        ReservationRole::Fuel => 1,
    }
}

/// Decides the identity order of two stack reservations.
pub fn identity_less(a: &StackReservationRequest, b: &StackReservationRequest) -> (r: bool)
    ensures
        r == spec_identity_less(*a, *b),
{
    let ra = role_rank(a.role);
    let rb = role_rank(b.role);
    if ra != rb {
        return ra < rb;
    }
    if text_less(a.definition_key.as_str(), b.definition_key.as_str()) {
        return true;
    }
    a.definition_key == b.definition_key && a.definition_version < b.definition_version
}

fn copy_stack(stack: &StackReservationRequest) -> (r: StackReservationRequest)
    ensures
        r == *stack,
{
    StackReservationRequest {
        role: stack.role,
        definition_key: stack.definition_key.clone(),
        definition_version: stack.definition_version,
        quantity: stack.quantity,
    }
}

/// Inserting a stack reservation at its sorted position keeps the reservations sorted.
pub proof fn lemma_stacks_sorted_insert(
    before: Seq<StackReservationRequest>,
    stack: StackReservationRequest,
    p: int,
)
    requires
        0 <= p <= before.len(),
        spec_stacks_sorted(before),
        forall|k: int| 0 <= k < p ==> spec_identity_less(#[trigger] before[k], stack),
        p < before.len() ==> spec_identity_less(stack, before[p]),
    ensures
        spec_stacks_sorted(before.insert(p, stack)),
{
    let after = before.insert(p, stack);
    before.insert_ensures(p, stack);
    assert forall|a: int, b: int| 0 <= a < b < after.len() implies #[trigger] spec_identity_less(
        after[a],
        after[b],
    ) by {
        if b < p {
        } else if b == p {
        } else if a < p {
            assert(after[b] == before[b - 1]);
            assert(spec_identity_less(before[a], before[b - 1]));
        } else if a == p {
            assert(after[b] == before[b - 1]);
            if b - 1 > p {
                assert(spec_identity_less(before[p], before[b - 1]));
                lemma_identity_order(stack, before[p], before[b - 1]);
            }
        } else {
            assert(after[a] == before[a - 1]);
            assert(after[b] == before[b - 1]);
            assert(spec_identity_less(before[a - 1], before[b - 1]));
        }
    }
}

fn insert_stack_sorted(stacks: &mut Vec<StackReservationRequest>, stack: StackReservationRequest)
    requires
        spec_stacks_sorted(old(stacks)@),
        forall|j: int|
            0 <= j < old(stacks)@.len() ==> !#[trigger] spec_same_identity(old(stacks)@[j], stack),
    ensures
        spec_stacks_sorted(final(stacks)@),
        final(stacks)@.len() == old(stacks)@.len() + 1,
        forall|x: StackReservationRequest|
            final(stacks)@.contains(x) <==> (old(stacks)@.contains(x) || x == stack),
{
    let ghost before = stacks@;
    let mut i: usize = 0;
    while i < stacks.len() && identity_less(&stacks[i], &stack)
        invariant
            stacks@ == before,
            i <= stacks@.len(),
            forall|k: int| 0 <= k < i ==> spec_identity_less(#[trigger] before[k], stack),
        decreases stacks@.len() - i,
    {
        i = i + 1;
    }
    proof {
        if i < before.len() {
            lemma_identity_order(before[i as int], stack, stack);
            assert(!spec_same_identity(before[i as int], stack));
        }
        lemma_stacks_sorted_insert(before, stack, i as int);
        before.insert_ensures(i as int, stack);
    }
    stacks.insert(i, stack);
    proof {
        assert forall|x: StackReservationRequest|
            stacks@.contains(x) <==> (before.contains(x) || x == stack) by {
            if before.contains(x) {
                let k = choose|k: int| 0 <= k < before.len() && before[k] == x;
                if k < i {
                    assert(stacks@[k] == x);
                } else {
                    assert(stacks@[k + 1] == x);
                }
            }
            if x == stack {
                assert(stacks@[i as int] == x);
            }
            if stacks@.contains(x) {
                let k = choose|k: int| 0 <= k < stacks@.len() && stacks@[k] == x;
                if k < i {
                    assert(before[k] == x);
                } else if k > i {
                    assert(before[k - 1] == x);
                }
            }
        }
    }
}

/// Two sorted sequences of stack reservations with the same members are equal: the identity order
/// leaves no freedom in the arrangement.
pub proof fn lemma_sorted_stacks_are_determined(
    a: Seq<StackReservationRequest>,
    b: Seq<StackReservationRequest>,
)
    requires
        spec_stacks_sorted(a),
        spec_stacks_sorted(b),
        a.len() == b.len(),
        forall|x: StackReservationRequest| a.contains(x) <==> b.contains(x),
    ensures
        a == b,
    decreases a.len(),
{
    if a.len() > 0 {
        assert(a.contains(a[0]));
        assert(b.contains(b[0]));
        let k = choose|k: int| 0 <= k < b.len() && b[k] == a[0];
        let m = choose|m: int| 0 <= m < a.len() && a[m] == b[0];
        if k > 0 && m > 0 {
            assert(spec_identity_less(b[0], b[k]));
            assert(spec_identity_less(a[0], a[m]));
            lemma_identity_order(a[0], b[0], a[0]);
        } else if k > 0 {
            assert(m == 0);
            assert(spec_identity_less(b[0], b[k]));
            lemma_identity_order(a[0], a[0], a[0]);
        } else if m > 0 {
            assert(spec_identity_less(a[0], a[m]));
            lemma_identity_order(b[0], b[0], b[0]);
        }
        assert(a[0] == b[0]);
        let ra = a.drop_first();
        let rb = b.drop_first();
        assert forall|x: StackReservationRequest| ra.contains(x) <==> rb.contains(x) by {
            if ra.contains(x) {
                let i = choose|i: int| 0 <= i < ra.len() && ra[i] == x;
                assert(a.contains(x));
                let j = choose|j: int| 0 <= j < b.len() && b[j] == x;
                if j == 0 {
                    assert(spec_identity_less(a[0], a[i + 1]));
                    lemma_identity_order(a[0], a[0], a[0]);
                }
                assert(rb[j - 1] == x);
            }
            if rb.contains(x) {
                let j = choose|j: int| 0 <= j < rb.len() && rb[j] == x;
                assert(b.contains(x));
                let i = choose|i: int| 0 <= i < a.len() && a[i] == x;
                if i == 0 {
                    assert(spec_identity_less(b[0], b[j + 1]));
                    lemma_identity_order(b[0], b[0], b[0]);
                }
                assert(ra[i - 1] == x);
            }
        }
        lemma_sorted_stacks_are_determined(ra, rb);
        assert(a =~= seq![a[0]] + ra);
        assert(b =~= seq![b[0]] + rb);
    }
}

/// Validates a service-job reservation request and returns its stack reservations in identity
/// order. The policy version must be positive, the service kind canonical, and at least one stack
/// given; then, in request order, each stack must be valid and its identity new.
pub fn normalize_request(request: &ServiceJobReservationRequest) -> (r: Result<
    Vec<StackReservationRequest>,
    ServiceJobReservationError,
>)
    ensures
        spec_request_header_error(*request) matches Some(e) ==> r == Err::<
            Vec<StackReservationRequest>,
            ServiceJobReservationError,
        >(e),
        spec_request_header_error(*request) is None ==> {
            &&& r is Ok <==> forall|i: int|
                0 <= i < request.stacks@.len() ==> #[trigger] spec_stack_problem(
                    request.stacks@,
                    i,
                ) is None
            &&& r matches Err(e) ==> exists|i: int|
                0 <= i < request.stacks@.len() && #[trigger] spec_stack_problem(request.stacks@, i)
                    == Some(e) && forall|k: int|
                    0 <= k < i ==> #[trigger] spec_stack_problem(request.stacks@, k) is None
            &&& r matches Ok(stacks) ==> {
                &&& stacks@.len() == request.stacks@.len()
                &&& spec_stacks_sorted(stacks@)
                &&& forall|x: StackReservationRequest|
                    stacks@.contains(x) <==> request.stacks@.contains(x)
                &&& spec_stacks_sorted(request.stacks@) ==> stacks@ == request.stacks@
            }
        },
{
    if request.policy_version <= 0 {
        return Err(ServiceJobReservationError::InvalidPolicyVersion);
    }
    if !is_canonical_text(request.service_kind.as_str()) {
        return Err(ServiceJobReservationError::InvalidServiceKind);
    }
    let input = &request.stacks;
    if input.len() == 0 {
        return Err(ServiceJobReservationError::EmptyReservations);
    }
    let mut i: usize = 0;
    while i < input.len()
        invariant
            input@ == request.stacks@,
            spec_request_header_error(*request) is None,
            i <= input@.len(),
            forall|k: int| 0 <= k < i ==> #[trigger] spec_stack_problem(input@, k) is None,
        decreases input@.len() - i,
    {
        let stack = &input[i];
        if !is_canonical_text(stack.definition_key.as_str()) || stack.definition_version <= 0
            || stack.quantity <= 0 {
            assert(spec_stack_problem(input@, i as int) == Some(
                ServiceJobReservationError::InvalidReservation,
            ));
            return Err(ServiceJobReservationError::InvalidReservation);
        }
        let mut j: usize = 0;
        while j < i
            invariant
                input@ == request.stacks@,
                spec_request_header_error(*request) is None,
                j <= i < input@.len(),
                spec_stack_valid(input@[i as int]),
                stack == &input@[i as int],
                forall|k: int| 0 <= k < i ==> #[trigger] spec_stack_problem(input@, k) is None,
                forall|k: int|
                    0 <= k < j ==> !#[trigger] spec_same_identity(input@[k], input@[i as int]),
            decreases i - j,
        {
            if same_identity(&input[j], stack) {
                assert(spec_same_identity(input@[j as int], input@[i as int]));
                assert(spec_stack_problem(input@, i as int) == Some(
                    ServiceJobReservationError::DuplicateReservation,
                ));
                return Err(ServiceJobReservationError::DuplicateReservation);
            }
            j = j + 1;
        }
        assert(spec_stack_problem(input@, i as int) is None);
        i = i + 1;
    }
    let mut sorted: Vec<StackReservationRequest> = Vec::new();
    let mut i: usize = 0;
    while i < input.len()
        invariant
            input@ == request.stacks@,
            i <= input@.len(),
            forall|k: int| 0 <= k < input@.len() ==> #[trigger] spec_stack_problem(input@, k) is None,
            sorted@.len() == i,
            spec_stacks_sorted(sorted@),
            forall|x: StackReservationRequest|
                sorted@.contains(x) <==> exists|k: int| 0 <= k < i && input@[k] == x,
        decreases input@.len() - i,
    {
        let stack = copy_stack(&input[i]);
        proof {
            assert(spec_stack_problem(input@, i as int) is None);
            assert forall|j: int| 0 <= j < sorted@.len() implies !#[trigger] spec_same_identity(
                sorted@[j],
                stack,
            ) by {
                assert(sorted@.contains(sorted@[j]));
                let k = choose|k: int| 0 <= k < i && input@[k] == sorted@[j];
                if spec_same_identity(sorted@[j], stack) {
                    assert(spec_same_identity(input@[k], input@[i as int]));
                }
            }
        }
        let ghost before = sorted@;
        insert_stack_sorted(&mut sorted, stack);
        proof {
            assert forall|x: StackReservationRequest|
                sorted@.contains(x) <==> exists|k: int| 0 <= k < i + 1 && input@[k] == x by {
                if x == stack {
                    assert(input@[i as int] == x);
                }
                if exists|k: int| 0 <= k < i + 1 && input@[k] == x {
                    let k = choose|k: int| 0 <= k < i + 1 && input@[k] == x;
                    if k < i {
                        assert(before.contains(x));
                    }
                }
            }
        }
        i = i + 1;
    }
    proof {
        assert forall|x: StackReservationRequest|
            sorted@.contains(x) <==> request.stacks@.contains(x) by {
            if request.stacks@.contains(x) {
                let k = choose|k: int| 0 <= k < input@.len() && input@[k] == x;
                assert(exists|k: int| 0 <= k < i && input@[k] == x);
            }
        }
        if spec_stacks_sorted(request.stacks@) {
            lemma_sorted_stacks_are_determined(sorted@, request.stacks@);
        }
    }
    Ok(sorted)
}

/// The total quantity reserved of one definition key and version.
#[derive(Clone, Debug, PartialEq, Eq)]
pub struct DefinitionTotal {
    pub definition_key: String,
    pub definition_version: i32,
    pub quantity: i64,
}

/// A stack reservation is of the given definition key and version.
pub open spec fn spec_same_definition(
    stack: StackReservationRequest,
    key: Seq<char>,
    version: i32,
) -> bool {
    stack.definition_key@ == key && stack.definition_version == version
}

/// The quantity the first `n` stack reservations reserve of one definition.
pub open spec fn spec_definition_total(
    stacks: Seq<StackReservationRequest>,
    key: Seq<char>,
    version: i32,
    n: int,
) -> int
    decreases n,
{
    if n <= 0 {
        0
    } else {
        spec_definition_total(stacks, key, version, n - 1) + if spec_same_definition(
            stacks[n - 1],
            key,
            version,
        ) {
            stacks[n - 1].quantity as int
        } else {
            0
        }
    }
}

/// The running total of the definition of stack `i`, once stack `i` is added, fits in an `i64`.
pub open spec fn spec_running_total_fits(stacks: Seq<StackReservationRequest>, i: int) -> bool {
    let total = spec_definition_total(
        stacks,
        stacks[i].definition_key@,
        stacks[i].definition_version,
        i + 1,
    );
    i64::MIN <= total <= i64::MAX
}

/// Definitions are ordered by key, then version.
pub open spec fn spec_definition_less(k1: Seq<char>, v1: i32, k2: Seq<char>, v2: i32) -> bool {
    spec_text_less(k1, k2) || (k1 == k2 && v1 < v2)
}

/// Definition totals in strictly increasing definition order.
pub open spec fn spec_totals_sorted(totals: Seq<DefinitionTotal>) -> bool {
    forall|i: int, j: int|
        0 <= i < j < totals.len() ==> #[trigger] spec_definition_less(
            totals[i].definition_key@,
            totals[i].definition_version,
            totals[j].definition_key@,
            totals[j].definition_version,
        )
}

/// The definition order is a strict total order.
pub proof fn lemma_definition_order(
    k1: Seq<char>,
    v1: i32,
    k2: Seq<char>,
    v2: i32,
    k3: Seq<char>,
    v3: i32,
)
    ensures
        !spec_definition_less(k1, v1, k1, v1),
        spec_definition_less(k1, v1, k2, v2) ==> !spec_definition_less(k2, v2, k1, v1),
        spec_definition_less(k1, v1, k2, v2) && spec_definition_less(k2, v2, k3, v3)
            ==> spec_definition_less(k1, v1, k3, v3),
        !(k1 == k2 && v1 == v2) ==> spec_definition_less(k1, v1, k2, v2) || spec_definition_less(
            k2,
            v2,
            k1,
            v1,
        ),
{
    lemma_text_order(k1, k2, k3);
    lemma_text_order(k2, k1, k3);
}

/// A definition no stack among the first `n` has totals zero.
pub proof fn lemma_definition_total_absent(
    stacks: Seq<StackReservationRequest>,
    key: Seq<char>,
    version: i32,
    n: int,
)
    requires
        0 <= n <= stacks.len(),
        forall|k: int| 0 <= k < n ==> !#[trigger] spec_same_definition(stacks[k], key, version),
    ensures
        spec_definition_total(stacks, key, version, n) == 0,
    decreases n,
{
    if n > 0 {
        lemma_definition_total_absent(stacks, key, version, n - 1);
    }
}

fn definition_less(k1: &str, v1: i32, k2: &str, v2: i32) -> (r: bool)
    ensures
        r == spec_definition_less(k1@, v1, k2@, v2),
{
    text_less(k1, k2) || (str_eq(k1, k2) && v1 < v2)
}

/// Some total is of the given definition.
pub open spec fn spec_totals_have(totals: Seq<DefinitionTotal>, key: Seq<char>, version: i32) -> bool {
    exists|j: int|
        0 <= j < totals.len() && (#[trigger] totals[j]).definition_key@ == key
            && totals[j].definition_version == version
}

/// Some stack among the first `n` is of the given definition.
pub open spec fn spec_stacks_have(
    stacks: Seq<StackReservationRequest>,
    key: Seq<char>,
    version: i32,
    n: int,
) -> bool {
    exists|k: int| 0 <= k < n && #[trigger] spec_same_definition(stacks[k], key, version)
}

/// The definition totals describe the first `n` stack reservations: they are sorted, each names a
/// definition some of those stacks have, each of those stacks has its definition's total, and each
/// total is the quantity those stacks reserve of its definition.
pub open spec fn spec_totals_cover(
    totals: Seq<DefinitionTotal>,
    stacks: Seq<StackReservationRequest>,
    n: int,
) -> bool {
    &&& spec_totals_sorted(totals)
    &&& forall|j: int|
        0 <= j < totals.len() ==> #[trigger] spec_stacks_have(
            stacks,
            totals[j].definition_key@,
            totals[j].definition_version,
            n,
        )
    &&& forall|k: int|
        0 <= k < n ==> #[trigger] spec_totals_have(
            totals,
            stacks[k].definition_key@,
            stacks[k].definition_version,
        )
    &&& forall|j: int|
        0 <= j < totals.len() ==> (#[trigger] totals[j]).quantity == spec_definition_total(
            stacks,
            totals[j].definition_key@,
            totals[j].definition_version,
            n,
        )
}

/// In sorted totals, only the insertion position of a definition can hold it; and when that
/// position holds another definition, none does and the definition sorts before it.
pub proof fn lemma_sorted_position(
    totals: Seq<DefinitionTotal>,
    p: int,
    key: Seq<char>,
    version: i32,
)
    requires
        spec_totals_sorted(totals),
        0 <= p <= totals.len(),
        forall|j: int|
            0 <= j < p ==> spec_definition_less(
                (#[trigger] totals[j]).definition_key@,
                totals[j].definition_version,
                key,
                version,
            ),
        p < totals.len() ==> !spec_definition_less(
            totals[p].definition_key@,
            totals[p].definition_version,
            key,
            version,
        ),
    ensures
        forall|j: int|
            0 <= j < totals.len() && (#[trigger] totals[j]).definition_key@ == key
                && totals[j].definition_version == version ==> j == p,
        p < totals.len() && !(totals[p].definition_key@ == key && totals[p].definition_version
            == version) ==> spec_definition_less(
            key,
            version,
            totals[p].definition_key@,
            totals[p].definition_version,
        ),
{
    if p < totals.len() {
        lemma_definition_order(
            totals[p].definition_key@,
            totals[p].definition_version,
            key,
            version,
            key,
            version,
        );
    }
    assert forall|j: int|
        0 <= j < totals.len() && (#[trigger] totals[j]).definition_key@ == key
            && totals[j].definition_version == version implies j == p by {
        if j < p {
            lemma_definition_order(key, version, key, version, key, version);
        } else if j > p {
            assert(spec_definition_less(
                totals[p].definition_key@,
                totals[p].definition_version,
                totals[j].definition_key@,
                totals[j].definition_version,
            ));
            lemma_definition_order(
                totals[p].definition_key@,
                totals[p].definition_version,
                key,
                version,
                key,
                version,
            );
        }
    }
}

/// Replacing the total at the position of stack `i`'s definition by that total plus the stack's
/// quantity covers one more stack.
pub proof fn lemma_cover_add_existing(
    before: Seq<DefinitionTotal>,
    entry: DefinitionTotal,
    stacks: Seq<StackReservationRequest>,
    i: int,
    p: int,
)
    requires
        0 <= i < stacks.len(),
        0 <= p < before.len(),
        spec_totals_cover(before, stacks, i),
        before[p].definition_key@ == stacks[i].definition_key@,
        before[p].definition_version == stacks[i].definition_version,
        entry.definition_key@ == stacks[i].definition_key@,
        entry.definition_version == stacks[i].definition_version,
        entry.quantity == before[p].quantity + stacks[i].quantity,
        forall|j: int|
            0 <= j < before.len() && (#[trigger] before[j]).definition_key@
                == stacks[i].definition_key@ && before[j].definition_version
                == stacks[i].definition_version ==> j == p,
    ensures
        spec_totals_cover(before.update(p, entry), stacks, i + 1),
{
    let after = before.update(p, entry);
    let key = stacks[i].definition_key@;
    let version = stacks[i].definition_version;
    assert forall|a: int, b: int| 0 <= a < b < after.len() implies #[trigger] spec_definition_less(
        after[a].definition_key@,
        after[a].definition_version,
        after[b].definition_key@,
        after[b].definition_version,
    ) by {
        assert(spec_definition_less(
            before[a].definition_key@,
            before[a].definition_version,
            before[b].definition_key@,
            before[b].definition_version,
        ));
    }
    assert forall|j: int| 0 <= j < after.len() implies (#[trigger] after[j]).quantity
        == spec_definition_total(
        stacks,
        after[j].definition_key@,
        after[j].definition_version,
        i + 1,
    ) by {
        assert(before[j].quantity == spec_definition_total(
            stacks,
            before[j].definition_key@,
            before[j].definition_version,
            i,
        ));
    }
    assert forall|j: int| 0 <= j < after.len() implies #[trigger] spec_stacks_have(
        stacks,
        after[j].definition_key@,
        after[j].definition_version,
        i + 1,
    ) by {
        assert(spec_stacks_have(
            stacks,
            before[j].definition_key@,
            before[j].definition_version,
            i,
        ));
        if j == p {
            assert(spec_same_definition(stacks[i], key, version));
        } else {
            let k = choose|k: int|
                0 <= k < i && #[trigger] spec_same_definition(
                    stacks[k],
                    before[j].definition_key@,
                    before[j].definition_version,
                );
            assert(spec_same_definition(
                stacks[k],
                after[j].definition_key@,
                after[j].definition_version,
            ));
        }
    }
    assert forall|k: int| 0 <= k < i + 1 implies #[trigger] spec_totals_have(
        after,
        stacks[k].definition_key@,
        stacks[k].definition_version,
    ) by {
        if k == i {
            assert(after[p].definition_key@ == key);
        } else {
            assert(spec_totals_have(before, stacks[k].definition_key@, stacks[k].definition_version));
            let j = choose|j: int|
                0 <= j < before.len() && (#[trigger] before[j]).definition_key@
                    == stacks[k].definition_key@ && before[j].definition_version
                    == stacks[k].definition_version;
            assert(after[j].definition_key@ == stacks[k].definition_key@);
        }
    }
}

/// Inserting a fresh sorted total keeps the totals sorted.
pub proof fn lemma_sorted_insert(before: Seq<DefinitionTotal>, entry: DefinitionTotal, p: int)
    requires
        0 <= p <= before.len(),
        spec_totals_sorted(before),
        forall|j: int|
            0 <= j < p ==> spec_definition_less(
                (#[trigger] before[j]).definition_key@,
                before[j].definition_version,
                entry.definition_key@,
                entry.definition_version,
            ),
        p < before.len() ==> spec_definition_less(
            entry.definition_key@,
            entry.definition_version,
            before[p].definition_key@,
            before[p].definition_version,
        ),
    ensures
        spec_totals_sorted(before.insert(p, entry)),
{
    let after = before.insert(p, entry);
    before.insert_ensures(p, entry);
    assert forall|a: int, b: int| 0 <= a < b < after.len() implies #[trigger] spec_definition_less(
        after[a].definition_key@,
        after[a].definition_version,
        after[b].definition_key@,
        after[b].definition_version,
    ) by {
        if b < p {
        } else if b == p {
        } else if a < p {
            assert(after[b] == before[b - 1]);
            assert(spec_definition_less(
                before[a].definition_key@,
                before[a].definition_version,
                before[b - 1].definition_key@,
                before[b - 1].definition_version,
            ));
        } else if a == p {
            assert(after[b] == before[b - 1]);
            if b - 1 > p {
                assert(spec_definition_less(
                    before[p].definition_key@,
                    before[p].definition_version,
                    before[b - 1].definition_key@,
                    before[b - 1].definition_version,
                ));
                lemma_definition_order(
                    entry.definition_key@,
                    entry.definition_version,
                    before[p].definition_key@,
                    before[p].definition_version,
                    before[b - 1].definition_key@,
                    before[b - 1].definition_version,
                );
            }
        } else {
            assert(after[a] == before[a - 1]);
            assert(after[b] == before[b - 1]);
            assert(spec_definition_less(
                before[a - 1].definition_key@,
                before[a - 1].definition_version,
                before[b - 1].definition_key@,
                before[b - 1].definition_version,
            ));
        }
    }
}

/// Inserting, at its sorted position, the total of a definition the totals do not yet hold covers
/// one more stack.
pub proof fn lemma_cover_insert_new(
    before: Seq<DefinitionTotal>,
    entry: DefinitionTotal,
    stacks: Seq<StackReservationRequest>,
    i: int,
    p: int,
)
    requires
        0 <= i < stacks.len(),
        0 <= p <= before.len(),
        spec_totals_cover(before, stacks, i),
        entry.definition_key@ == stacks[i].definition_key@,
        entry.definition_version == stacks[i].definition_version,
        entry.quantity == stacks[i].quantity,
        forall|j: int|
            0 <= j < p ==> spec_definition_less(
                (#[trigger] before[j]).definition_key@,
                before[j].definition_version,
                entry.definition_key@,
                entry.definition_version,
            ),
        p < before.len() ==> spec_definition_less(
            entry.definition_key@,
            entry.definition_version,
            before[p].definition_key@,
            before[p].definition_version,
        ),
        !spec_totals_have(before, entry.definition_key@, entry.definition_version),
    ensures
        spec_totals_cover(before.insert(p, entry), stacks, i + 1),
        spec_definition_total(stacks, entry.definition_key@, entry.definition_version, i) == 0,
{
    let after = before.insert(p, entry);
    let key = entry.definition_key@;
    let version = entry.definition_version;
    before.insert_ensures(p, entry);
    lemma_sorted_insert(before, entry, p);
    assert forall|k: int| 0 <= k < i implies !#[trigger] spec_same_definition(
        stacks[k],
        key,
        version,
    ) by {
        assert(spec_totals_have(before, stacks[k].definition_key@, stacks[k].definition_version));
    }
    lemma_definition_total_absent(stacks, key, version, i);
    assert forall|j: int| 0 <= j < after.len() implies (#[trigger] after[j]).quantity
        == spec_definition_total(
        stacks,
        after[j].definition_key@,
        after[j].definition_version,
        i + 1,
    ) by {
        if j != p {
            let b = if j < p {
                j
            } else {
                j - 1
            };
            assert(after[j] == before[b]);
            assert(before[b].quantity == spec_definition_total(
                stacks,
                before[b].definition_key@,
                before[b].definition_version,
                i,
            ));
            if spec_same_definition(stacks[i], before[b].definition_key@, before[b].definition_version) {
                assert(spec_totals_have(before, key, version));
            }
        }
    }
    assert forall|j: int| 0 <= j < after.len() implies #[trigger] spec_stacks_have(
        stacks,
        after[j].definition_key@,
        after[j].definition_version,
        i + 1,
    ) by {
        if j == p {
            assert(spec_same_definition(stacks[i], key, version));
        } else {
            let b = if j < p {
                j
            } else {
                j - 1
            };
            assert(after[j] == before[b]);
            assert(spec_stacks_have(
                stacks,
                before[b].definition_key@,
                before[b].definition_version,
                i,
            ));
            let k = choose|k: int|
                0 <= k < i && #[trigger] spec_same_definition(
                    stacks[k],
                    before[b].definition_key@,
                    before[b].definition_version,
                );
            assert(spec_same_definition(
                stacks[k],
                after[j].definition_key@,
                after[j].definition_version,
            ));
        }
    }
    assert forall|k: int| 0 <= k < i + 1 implies #[trigger] spec_totals_have(
        after,
        stacks[k].definition_key@,
        stacks[k].definition_version,
    ) by {
        if k == i {
            assert(after[p].definition_key@ == key);
        } else {
            assert(spec_totals_have(before, stacks[k].definition_key@, stacks[k].definition_version));
            let j = choose|j: int|
                0 <= j < before.len() && (#[trigger] before[j]).definition_key@
                    == stacks[k].definition_key@ && before[j].definition_version
                    == stacks[k].definition_version;
            let a = if j < p {
                j
            } else {
                j + 1
            };
            assert(after[a] == before[j]);
        }
    }
}

/// The quantity all definition totals hold together.
pub open spec fn spec_totals_quantity(totals: Seq<DefinitionTotal>) -> int
    decreases totals.len(),
{
    if totals.len() == 0 {
        0
    } else {
        spec_totals_quantity(totals.drop_last()) + totals.last().quantity
    }
}

/// The quantity all stack reservations request together.
pub open spec fn spec_stacks_quantity(stacks: Seq<StackReservationRequest>) -> int
    decreases stacks.len(),
{
    if stacks.len() == 0 {
        0
    } else {
        spec_stacks_quantity(stacks.drop_last()) + stacks.last().quantity
    }
}

proof fn lemma_totals_quantity_update(totals: Seq<DefinitionTotal>, p: int, entry: DefinitionTotal)
    requires
        0 <= p < totals.len(),
    ensures
        spec_totals_quantity(totals.update(p, entry)) == spec_totals_quantity(totals)
            - totals[p].quantity + entry.quantity,
    decreases totals.len(),
{
    let after = totals.update(p, entry);
    if p == totals.len() - 1 {
        assert(after.drop_last() =~= totals.drop_last());
    } else {
        assert(after.drop_last() =~= totals.drop_last().update(p, entry));
        lemma_totals_quantity_update(totals.drop_last(), p, entry);
    }
}

proof fn lemma_totals_quantity_insert(totals: Seq<DefinitionTotal>, p: int, entry: DefinitionTotal)
    requires
        0 <= p <= totals.len(),
    ensures
        spec_totals_quantity(totals.insert(p, entry)) == spec_totals_quantity(totals)
            + entry.quantity,
    decreases totals.len(),
{
    let after = totals.insert(p, entry);
    totals.insert_ensures(p, entry);
    if p == totals.len() {
        assert(after.drop_last() =~= totals);
    } else {
        assert(after.drop_last() =~= totals.drop_last().insert(p, entry));
        lemma_totals_quantity_insert(totals.drop_last(), p, entry);
    }
}

fn definition_position(totals: &Vec<DefinitionTotal>, key: &str, version: i32) -> (p: usize)
    ensures
        p <= totals@.len(),
        forall|j: int|
            0 <= j < p ==> spec_definition_less(
                (#[trigger] totals@[j]).definition_key@,
                totals@[j].definition_version,
                key@,
                version,
            ),
        p < totals@.len() ==> !spec_definition_less(
            totals@[p as int].definition_key@,
            totals@[p as int].definition_version,
            key@,
            version,
        ),
{
    let mut p: usize = 0;
    while p < totals.len() && definition_less(
        totals[p].definition_key.as_str(),
        totals[p].definition_version,
        key,
        version,
    )
        invariant
            p <= totals@.len(),
            forall|j: int|
                0 <= j < p ==> spec_definition_less(
                    (#[trigger] totals@[j]).definition_key@,
                    totals@[j].definition_version,
                    key@,
                    version,
                ),
        decreases totals@.len() - p,
    {
        p = p + 1;
    }
    p
}

/// Totals the requested quantity per definition key and version, in definition order. A running
/// total that leaves the `i64` range is an arithmetic overflow.
pub fn aggregate_by_definition(stacks: &[StackReservationRequest]) -> (r: Result<
    Vec<DefinitionTotal>,
    ServiceJobReservationError,
>)
    ensures
        r is Ok <==> forall|i: int|
            0 <= i < stacks@.len() ==> #[trigger] spec_running_total_fits(stacks@, i),
        r is Err ==> r == Err::<Vec<DefinitionTotal>, ServiceJobReservationError>(
            ServiceJobReservationError::ArithmeticOverflow,
        ),
        r matches Ok(totals) ==> spec_totals_cover(totals@, stacks@, stacks@.len() as int),
        r matches Ok(totals) ==> spec_totals_quantity(totals@) == spec_stacks_quantity(stacks@),
{
    let mut totals: Vec<DefinitionTotal> = Vec::new();
    let mut i: usize = 0;
    while i < stacks.len()
        invariant
            i <= stacks@.len(),
            spec_totals_cover(totals@, stacks@, i as int),
            spec_totals_quantity(totals@) == spec_stacks_quantity(stacks@.take(i as int)),
            forall|k: int| 0 <= k < i ==> #[trigger] spec_running_total_fits(stacks@, k),
        decreases stacks@.len() - i,
    {
        let stack = &stacks[i];
        let p = definition_position(&totals, stack.definition_key.as_str(), stack.definition_version);
        let ghost before = totals@;
        proof {
            lemma_sorted_position(before, p as int, stack.definition_key@, stack.definition_version);
            assert(stacks@.take(i as int + 1).drop_last() =~= stacks@.take(i as int));
        }
        if p < totals.len() && totals[p].definition_key == stack.definition_key
            && totals[p].definition_version == stack.definition_version {
            proof {
                assert(before[p as int].quantity == spec_definition_total(
                    stacks@,
                    before[p as int].definition_key@,
                    before[p as int].definition_version,
                    i as int,
                ));
            }
            match totals[p].quantity.checked_add(stack.quantity) {
                None => {
                    assert(!spec_running_total_fits(stacks@, i as int));
                    return Err(ServiceJobReservationError::ArithmeticOverflow);
                },
                Some(sum) => {
                    let entry = DefinitionTotal {
                        definition_key: stack.definition_key.clone(),
                        definition_version: stack.definition_version,
                        quantity: sum,
                    };
                    proof {
                        lemma_cover_add_existing(before, entry, stacks@, i as int, p as int);
                        lemma_totals_quantity_update(before, p as int, entry);
                    }
                    totals.set(p, entry);
                    assert(spec_running_total_fits(stacks@, i as int));
                },
            }
        } else {
            let entry = DefinitionTotal {
                definition_key: stack.definition_key.clone(),
                definition_version: stack.definition_version,
                quantity: stack.quantity,
            };
            proof {
                if spec_totals_have(before, entry.definition_key@, entry.definition_version) {
                    let j = choose|j: int|
                        0 <= j < before.len() && (#[trigger] before[j]).definition_key@
                            == entry.definition_key@ && before[j].definition_version
                            == entry.definition_version;
                    assert(j == p);
                }
                lemma_cover_insert_new(before, entry, stacks@, i as int, p as int);
                lemma_totals_quantity_insert(before, p as int, entry);
            }
            totals.insert(p, entry);
            assert(spec_running_total_fits(stacks@, i as int));
        }
        i = i + 1;
    }
    proof {
        assert(stacks@.take(stacks@.len() as int) =~= stacks@);
    }
    Ok(totals)
}

/// Checks the locked owning operation against the request: an operation bound to another player,
/// or pinned to another policy version, does not match.
pub fn check_operation_binding(
    operation_player_id: Option<u128>,
    operation_policy_version: i32,
    request: &ServiceJobReservationRequest,
) -> (r: Result<(), ServiceJobReservationError>)
    ensures
        r is Ok <==> !(operation_player_id matches Some(player_id) && player_id
            != request.player_id) && operation_policy_version == request.policy_version,
        r is Err ==> r == Err::<(), ServiceJobReservationError>(
            ServiceJobReservationError::OperationMismatch,
        ),
{
    let player_mismatch = match operation_player_id {
        Some(player_id) => player_id != request.player_id,
        None => false,
    };
    if player_mismatch || operation_policy_version != request.policy_version {
        return Err(ServiceJobReservationError::OperationMismatch);
    }
    Ok(())
}

/// The operation states in which a reservation may proceed: a retry of an existing job may find
/// its operation pending or committed; a new job needs a pending operation.
pub open spec fn spec_operation_state_allows(state: Seq<char>, has_existing_job: bool) -> bool {
    state == "PENDING"@ || (has_existing_job && state == "COMMITTED"@)
}

/// Checks the owning operation's state; any other state is terminal for the reservation.
pub fn check_operation_state(state: String, has_existing_job: bool) -> (r: Result<
    (),
    ServiceJobReservationError,
>)
    ensures
        spec_operation_state_allows(state@, has_existing_job) ==> r is Ok,
        !spec_operation_state_allows(state@, has_existing_job) ==> r == Err::<
            (),
            ServiceJobReservationError,
        >(ServiceJobReservationError::OperationTerminal(state)),
{
    if str_eq(state.as_str(), "PENDING") || (has_existing_job && str_eq(
        state.as_str(),
        "COMMITTED",
    )) {
        return Ok(());
    }
    Err(ServiceJobReservationError::OperationTerminal(state))
}

/// Checks the locked player's account status: only an active account may reserve.
pub fn check_player_status(status: String) -> (r: Result<(), ServiceJobReservationError>)
    ensures
        status@ == "ACTIVE"@ ==> r is Ok,
        status@ != "ACTIVE"@ ==> r == Err::<(), ServiceJobReservationError>(
            ServiceJobReservationError::AccountFrozen(status),
        ),
{
    if str_eq(status.as_str(), "ACTIVE") {
        return Ok(());
    }
    Err(ServiceJobReservationError::AccountFrozen(status))
}

/// Checks the Item Bag quantity locked for one definition total (no stack holds zero) against the
/// total requested, and returns the quantity available.
pub fn check_available_quantity(total: &DefinitionTotal, stored_quantity: Option<i64>) -> (r: Result<
    i64,
    ServiceJobReservationError,
>)
    ensures
        ({
            let available = match stored_quantity {
                Some(quantity) => quantity,
                None => 0,
            };
            &&& available >= total.quantity ==> r == Ok::<i64, ServiceJobReservationError>(
                available,
            )
            &&& available < total.quantity ==> r == Err::<i64, ServiceJobReservationError>(
                ServiceJobReservationError::InsufficientStack {
                    definition_key: total.definition_key,
                    definition_version: total.definition_version,
                    available,
                    requested: total.quantity,
                },
            )
        }),
{
    let available = match stored_quantity {
        Some(quantity) => quantity,
        None => 0,
    };
    if available < total.quantity {
        return Err(
            ServiceJobReservationError::InsufficientStack {
                definition_key: total.definition_key.clone(),
                definition_version: total.definition_version,
                available,
                requested: total.quantity,
            },
        );
    }
    Ok(available)
}

/// How reserving a definition total changes its Item Bag stack.
#[derive(Clone, Copy, Debug, PartialEq, Eq, Structural)]
pub enum ItemStackReservationWrite {
    DeleteStack,
    DecrementBy(i64),
}

/// A stack reserved whole is deleted; otherwise it is decremented by the requested quantity.
pub fn item_stack_reservation_write(current: i64, requested: i64) -> (r: ItemStackReservationWrite)
    ensures
        current == requested ==> r == ItemStackReservationWrite::DeleteStack,
        current != requested ==> r == ItemStackReservationWrite::DecrementBy(requested),
{
    if current == requested {
        ItemStackReservationWrite::DeleteStack
    } else {
        ItemStackReservationWrite::DecrementBy(requested)
    }
}

/// The receipt of a newly reserved job, running under the request's operation.
pub fn running_reservation_receipt(
    job_id: u128,
    request: &ServiceJobReservationRequest,
    stacks: Vec<StackReservationRequest>,
) -> (r: ServiceJobReservationReceipt)
    ensures
        r.job_id == job_id,
        r.operation_id == request.operation_id,
        r.player_id == request.player_id,
        r.service_kind == request.service_kind,
        r.policy_version == request.policy_version,
        r.state@ == "RUNNING"@,
        r.stacks == stacks,
{
    ServiceJobReservationReceipt {
        job_id,
        operation_id: request.operation_id,
        player_id: request.player_id,
        service_kind: request.service_kind.clone(),
        policy_version: request.policy_version,
        state: "RUNNING".to_owned(),
        stacks,
    }
}

/// The service job already recorded for an operation.
#[derive(Clone, Debug, PartialEq, Eq)]
pub struct ExistingServiceJob {
    pub job_id: u128,
    pub player_id: u128,
    pub service_kind: String,
    pub policy_version: i32,
    pub state: String,
}

/// One stored stack reservation of an existing service job, its role as persisted.
#[derive(Clone, Debug, PartialEq, Eq)]
pub struct StoredStackReservationRow {
    pub role: String,
    pub definition_key: String,
    pub definition_version: i32,
    pub quantity: i64,
}

/// The existing job was recorded for the same player, service kind and policy version.
pub open spec fn spec_existing_job_matches(
    request: ServiceJobReservationRequest,
    existing: ExistingServiceJob,
) -> bool {
    &&& existing.player_id == request.player_id
    &&& existing.service_kind@ == request.service_kind@
    &&& existing.policy_version == request.policy_version
}

/// Two stack reservations agree in identity and quantity.
pub open spec fn spec_same_stack(a: StackReservationRequest, b: StackReservationRequest) -> bool {
    spec_same_identity(a, b) && a.quantity == b.quantity
}

/// A stored row read back as a stack reservation, its role label being valid.
pub open spec fn spec_stored_stack(row: StoredStackReservationRow) -> StackReservationRequest {
    StackReservationRequest {
        role: spec_role_from_label(row.role@)->Ok_0,
        definition_key: row.definition_key,
        definition_version: row.definition_version,
        quantity: row.quantity,
    }
}

/// The stack reservation agrees with one of the expected ones.
pub open spec fn spec_agrees_with_some(
    stack: StackReservationRequest,
    expected: Seq<StackReservationRequest>,
) -> bool {
    exists|j: int| 0 <= j < expected.len() && #[trigger] spec_same_stack(stack, expected[j])
}

/// The stored reservations are, in some order, exactly the expected ones: as many, each agreeing
/// with an expected reservation, and no two of one identity.
pub open spec fn spec_stored_stacks_match(
    rows: Seq<StoredStackReservationRow>,
    expected: Seq<StackReservationRequest>,
) -> bool {
    &&& rows.len() == expected.len()
    &&& forall|i: int|
        0 <= i < rows.len() ==> #[trigger] spec_agrees_with_some(
            spec_stored_stack(rows[i]),
            expected,
        )
    &&& forall|i: int, j: int|
        0 <= i < j < rows.len() ==> !#[trigger] spec_same_identity(
            spec_stored_stack(rows[i]),
            spec_stored_stack(rows[j]),
        )
}

fn same_stack(a: &StackReservationRequest, b: &StackReservationRequest) -> (r: bool)
    ensures
        r == spec_same_stack(*a, *b),
{
    same_identity(a, b) && a.quantity == b.quantity
}

/// The answer to a retried reservation, given the job recorded for its operation and that job's
/// stored reservations: a conflict for another player, service kind or policy version; an
/// integrity mismatch for a stored role label that is not valid; a conflict when the stored
/// reservations are not the expected ones; otherwise the recorded job's receipt.
pub open spec fn spec_existing_job_receipt(
    request: ServiceJobReservationRequest,
    expected_stacks: Vec<StackReservationRequest>,
    existing: ExistingServiceJob,
    rows: Seq<StoredStackReservationRow>,
) -> Result<ServiceJobReservationReceipt, ServiceJobReservationError> {
    if !spec_existing_job_matches(request, existing) {
        Err(ServiceJobReservationError::ReservationConflict)
    } else if exists|i: int| 0 <= i < rows.len() && #[trigger] spec_role_from_label(rows[i].role@) is Err {
        Err(ServiceJobReservationError::ReservationIntegrityMismatch)
    } else if !spec_stored_stacks_match(rows, expected_stacks@) {
        Err(ServiceJobReservationError::ReservationConflict)
    } else {
        Ok(
            ServiceJobReservationReceipt {
                job_id: existing.job_id,
                operation_id: request.operation_id,
                player_id: existing.player_id,
                service_kind: existing.service_kind,
                policy_version: existing.policy_version,
                state: existing.state,
                stacks: expected_stacks,
            },
        )
    }
}

/// Validates a retried reservation against the job already recorded for its operation and returns
/// that job's receipt. The job must have been recorded for the same player, service kind and
/// policy version; every stored role label must be valid; and the stored reservations must be the
/// expected ones.
pub fn receipt_for_existing_job(
    request: &ServiceJobReservationRequest,
    expected_stacks: Vec<StackReservationRequest>,
    existing: ExistingServiceJob,
    rows: &[StoredStackReservationRow],
) -> (r: Result<ServiceJobReservationReceipt, ServiceJobReservationError>)
    requires
        spec_stacks_sorted(expected_stacks@),
    ensures
        r == spec_existing_job_receipt(*request, expected_stacks, existing, rows@),
        !spec_existing_job_matches(*request, existing) ==> r == Err::<
            ServiceJobReservationReceipt,
            ServiceJobReservationError,
        >(ServiceJobReservationError::ReservationConflict),
        spec_existing_job_matches(*request, existing) && (exists|i: int|
            0 <= i < rows@.len() && #[trigger] spec_role_from_label(rows@[i].role@) is Err) ==> r
            == Err::<ServiceJobReservationReceipt, ServiceJobReservationError>(
            ServiceJobReservationError::ReservationIntegrityMismatch,
        ),
        spec_existing_job_matches(*request, existing) && (forall|i: int|
            0 <= i < rows@.len() ==> #[trigger] spec_role_from_label(rows@[i].role@) is Ok) ==> {
            &&& !spec_stored_stacks_match(rows@, expected_stacks@) ==> r == Err::<
                ServiceJobReservationReceipt,
                ServiceJobReservationError,
            >(ServiceJobReservationError::ReservationConflict)
            &&& spec_stored_stacks_match(rows@, expected_stacks@) ==> r == Ok::<
                ServiceJobReservationReceipt,
                ServiceJobReservationError,
            >(
                ServiceJobReservationReceipt {
                    job_id: existing.job_id,
                    operation_id: request.operation_id,
                    player_id: existing.player_id,
                    service_kind: existing.service_kind,
                    policy_version: existing.policy_version,
                    state: existing.state,
                    stacks: expected_stacks,
                },
            )
        },
{
    if existing.player_id != request.player_id || existing.service_kind != request.service_kind
        || existing.policy_version != request.policy_version {
        return Err(ServiceJobReservationError::ReservationConflict);
    }
    let mut stored: Vec<StackReservationRequest> = Vec::new();
    let mut i: usize = 0;
    while i < rows.len()
        invariant
            spec_existing_job_matches(*request, existing),
            i <= rows@.len(),
            stored@.len() == i,
            forall|k: int| 0 <= k < i ==> #[trigger] spec_role_from_label(rows@[k].role@) is Ok,
            forall|k: int| 0 <= k < i ==> stored@[k] == spec_stored_stack(#[trigger] rows@[k]),
        decreases rows@.len() - i,
    {
        let role = match ReservationRole::from_db(rows[i].role.as_str()) {
            Ok(role) => role,
            Err(e) => {
                return Err(e);
            },
        };
        stored.push(
            StackReservationRequest {
                role,
                definition_key: rows[i].definition_key.clone(),
                definition_version: rows[i].definition_version,
                quantity: rows[i].quantity,
            },
        );
        i = i + 1;
    }
    let mut matched = stored.len() == expected_stacks.len();
    let mut i: usize = 0;
    while matched && i < stored.len()
        invariant
            stored@.len() == rows@.len(),
            forall|k: int| 0 <= k < rows@.len() ==> stored@[k] == spec_stored_stack(#[trigger] rows@[k]),
            matched ==> stored@.len() == expected_stacks@.len(),
            matched ==> forall|k: int|
                0 <= k < i ==> #[trigger] spec_agrees_with_some(
                    spec_stored_stack(rows@[k]),
                    expected_stacks@,
                ),
            matched ==> forall|k: int, l: int|
                0 <= k < l < rows@.len() && k < i ==> !#[trigger] spec_same_identity(
                    spec_stored_stack(rows@[k]),
                    spec_stored_stack(rows@[l]),
                ),
            !matched ==> !spec_stored_stacks_match(rows@, expected_stacks@),
            i <= stored@.len(),
        decreases stored@.len() - i,
    {
        let mut found = false;
        let mut j: usize = 0;
        while j < expected_stacks.len()
            invariant
                i < stored@.len(),
                j <= expected_stacks@.len(),
                found ==> spec_agrees_with_some(stored@[i as int], expected_stacks@),
                !found ==> forall|l: int|
                    0 <= l < j ==> !#[trigger] spec_same_stack(stored@[i as int], expected_stacks@[l]),
            decreases expected_stacks@.len() - j,
        {
            if same_stack(&stored[i], &expected_stacks[j]) {
                found = true;
            }
            j = j + 1;
        }
        if !found {
            proof {
                assert(stored@[i as int] == spec_stored_stack(rows@[i as int]));
                assert(!spec_agrees_with_some(spec_stored_stack(rows@[i as int]), expected_stacks@));
            }
            matched = false;
        } else {
            let mut duplicate = false;
            let mut l: usize = i + 1;
            while l < stored.len()
                invariant
                    i < l <= stored@.len(),
                    stored@.len() == rows@.len(),
                    forall|k: int|
                        0 <= k < rows@.len() ==> stored@[k] == spec_stored_stack(#[trigger] rows@[k]),
                    duplicate ==> exists|m: int|
                        i < m < rows@.len() && #[trigger] spec_same_identity(
                            spec_stored_stack(rows@[i as int]),
                            spec_stored_stack(rows@[m]),
                        ),
                    !duplicate ==> forall|m: int|
                        i < m < l ==> !#[trigger] spec_same_identity(
                            spec_stored_stack(rows@[i as int]),
                            spec_stored_stack(rows@[m]),
                        ),
                decreases stored@.len() - l,
            {
                if same_identity(&stored[i], &stored[l]) {
                    proof {
                        assert(spec_same_identity(
                            spec_stored_stack(rows@[i as int]),
                            spec_stored_stack(rows@[l as int]),
                        ));
                    }
                    duplicate = true;
                }
                l = l + 1;
            }
            if duplicate {
                matched = false;
            } else {
                proof {
                    assert(stored@[i as int] == spec_stored_stack(rows@[i as int]));
                }
            }
        }
        i = i + 1;
    }
    if !matched {
        return Err(ServiceJobReservationError::ReservationConflict);
    }
    Ok(
        ServiceJobReservationReceipt {
            job_id: existing.job_id,
            operation_id: request.operation_id,
            player_id: existing.player_id,
            service_kind: existing.service_kind,
            policy_version: existing.policy_version,
            state: existing.state,
            stacks: expected_stacks,
        },
    )
}

/// Retrying a reservation is idempotent: the rows a fresh reservation records for its normalized
/// stacks (each role by its persisted label) read back as valid roles and match those stacks, so a
/// retry of the same request is answered with the existing job's receipt.
pub proof fn lemma_recorded_reservations_match_on_retry(
    stacks: Seq<StackReservationRequest>,
    rows: Seq<StoredStackReservationRow>,
)
    requires
        spec_stacks_sorted(stacks),
        spec_rows_record_stacks(rows, stacks),
    ensures
        forall|i: int| 0 <= i < rows.len() ==> #[trigger] spec_role_from_label(rows[i].role@) is Ok,
        spec_stored_stacks_match(rows, stacks),
{
    assert forall|i: int| 0 <= i < rows.len() implies #[trigger] spec_role_from_label(
        rows[i].role@,
    ) == Ok::<ReservationRole, ServiceJobReservationError>(stacks[i].role) by {
        lemma_role_label_round_trip(stacks[i].role);
    }
    assert forall|i: int| 0 <= i < rows.len() implies #[trigger] spec_agrees_with_some(
        spec_stored_stack(rows[i]),
        stacks,
    ) by {
        assert(spec_role_from_label(rows[i].role@) == Ok::<
            ReservationRole,
            ServiceJobReservationError,
        >(stacks[i].role));
        assert(spec_same_stack(spec_stored_stack(rows[i]), stacks[i]));
    }
    assert forall|i: int, j: int| 0 <= i < j < rows.len() implies !#[trigger] spec_same_identity(
        spec_stored_stack(rows[i]),
        spec_stored_stack(rows[j]),
    ) by {
        assert(spec_role_from_label(rows[i].role@) == Ok::<
            ReservationRole,
            ServiceJobReservationError,
        >(stacks[i].role));
        assert(spec_role_from_label(rows[j].role@) == Ok::<
            ReservationRole,
            ServiceJobReservationError,
        >(stacks[j].role));
        assert(spec_identity_less(stacks[i], stacks[j]));
        lemma_identity_order(stacks[i], stacks[j], stacks[j]);
    }
}

/// The stack reservations a fresh reservation records for its normalized stacks: one row per
/// stack, in order, each role by its persisted label.
pub open spec fn spec_rows_record_stacks(
    rows: Seq<StoredStackReservationRow>,
    stacks: Seq<StackReservationRequest>,
) -> bool {
    &&& rows.len() == stacks.len()
    &&& forall|i: int|
        0 <= i < rows.len() ==> {
            &&& (#[trigger] rows[i]).role@ == spec_role_label(stacks[i].role)
            &&& rows[i].definition_key@ == stacks[i].definition_key@
            &&& rows[i].definition_version == stacks[i].definition_version
            &&& rows[i].quantity == stacks[i].quantity
        }
}

/// The job a fresh reservation records for a request under a job id.
pub open spec fn spec_job_records_request(
    existing: ExistingServiceJob,
    job_id: u128,
    request: ServiceJobReservationRequest,
) -> bool {
    &&& existing.job_id == job_id
    &&& existing.player_id == request.player_id
    &&& existing.service_kind@ == request.service_kind@
    &&& existing.policy_version == request.policy_version
}

/// Retrying a reservation returns the recorded job: once a fresh reservation of `request` under
/// `job_id` has recorded its job and its normalized `stacks` (whose receipt carries `job_id` and
/// `stacks`), a retry for the same player, service kind and policy version whose normalized stacks
/// are `stacks` is answered with a receipt of that same job and those same stacks. A retry for
/// another service kind, or whose normalized (sorted) stacks differ from `stacks` in count or at
/// some position in role, definition or quantity, is answered with a reservation conflict.
pub proof fn lemma_retry_returns_the_recorded_job(
    request: ServiceJobReservationRequest,
    job_id: u128,
    stacks: Vec<StackReservationRequest>,
    existing: ExistingServiceJob,
    rows: Seq<StoredStackReservationRow>,
    retry: ServiceJobReservationRequest,
    retry_stacks: Vec<StackReservationRequest>,
)
    requires
        spec_stacks_sorted(stacks@),
        spec_job_records_request(existing, job_id, request),
        spec_rows_record_stacks(rows, stacks@),
        retry.player_id == request.player_id,
        retry.policy_version == request.policy_version,
    ensures
        retry.service_kind@ == request.service_kind@ ==> (spec_existing_job_receipt(
            retry,
            stacks,
            existing,
            rows,
        ) matches Ok(receipt) && receipt.job_id == job_id && receipt.stacks == stacks
            && receipt.player_id == request.player_id && receipt.policy_version
            == request.policy_version),
        retry.service_kind@ != request.service_kind@ ==> spec_existing_job_receipt(
            retry,
            retry_stacks,
            existing,
            rows,
        ) == Err::<ServiceJobReservationReceipt, ServiceJobReservationError>(
            ServiceJobReservationError::ReservationConflict,
        ),
        retry.service_kind@ == request.service_kind@ && spec_stacks_sorted(retry_stacks@)
            && !spec_stacks_agree(stacks@, retry_stacks@) ==> spec_existing_job_receipt(
            retry,
            retry_stacks,
            existing,
            rows,
        ) == Err::<ServiceJobReservationReceipt, ServiceJobReservationError>(
            ServiceJobReservationError::ReservationConflict,
        ),
{
    lemma_recorded_reservations_match_on_retry(stacks@, rows);
    if retry.service_kind@ == request.service_kind@ {
        assert(spec_existing_job_matches(retry, existing));
        if spec_stacks_sorted(retry_stacks@) && spec_stored_stacks_match(rows, retry_stacks@) {
            assert forall|i: int| 0 <= i < stacks@.len() implies #[trigger] spec_agrees_with_some(
                stacks@[i],
                retry_stacks@,
            ) by {
                lemma_role_label_round_trip(stacks@[i].role);
                assert(spec_agrees_with_some(spec_stored_stack(rows[i]), retry_stacks@));
                let j = choose|j: int|
                    0 <= j < retry_stacks@.len() && #[trigger] spec_same_stack(
                        spec_stored_stack(rows[i]),
                        retry_stacks@[j],
                    );
                assert(spec_same_stack(stacks@[i], retry_stacks@[j]));
            }
            lemma_sorted_agreement_is_positional(stacks@, retry_stacks@);
        }
    }
}

/// Two sequences of stack reservations agree position by position in identity and quantity.
pub open spec fn spec_stacks_agree(
    a: Seq<StackReservationRequest>,
    b: Seq<StackReservationRequest>,
) -> bool {
    &&& a.len() == b.len()
    &&& forall|i: int| 0 <= i < a.len() ==> #[trigger] spec_same_stack(a[i], b[i])
}

/// A strictly increasing map of `0..n` into itself is the identity, from below.
proof fn lemma_increasing_map_at_least(f: spec_fn(int) -> int, n: int, i: int)
    requires
        0 <= i < n,
        forall|x: int| 0 <= x < n ==> 0 <= #[trigger] f(x) < n,
        forall|x: int, y: int| 0 <= x < y < n ==> #[trigger] f(x) < #[trigger] f(y),
    ensures
        f(i) >= i,
    decreases i,
{
    if i > 0 {
        lemma_increasing_map_at_least(f, n, i - 1);
        assert(f(i - 1) < f(i));
    }
}

/// A strictly increasing map of `0..n` into itself is the identity, from above.
proof fn lemma_increasing_map_at_most(f: spec_fn(int) -> int, n: int, i: int)
    requires
        0 <= i < n,
        forall|x: int| 0 <= x < n ==> 0 <= #[trigger] f(x) < n,
        forall|x: int, y: int| 0 <= x < y < n ==> #[trigger] f(x) < #[trigger] f(y),
    ensures
        f(i) <= i,
    decreases n - i,
{
    if i < n - 1 {
        lemma_increasing_map_at_most(f, n, i + 1);
        assert(f(i) < f(i + 1));
    } else {
        assert(f(i) < n);
    }
}

/// Of two sorted sequences of stack reservations of one length, where each reservation of the
/// first agrees with some reservation of the second, the two agree position by position.
pub proof fn lemma_sorted_agreement_is_positional(
    a: Seq<StackReservationRequest>,
    b: Seq<StackReservationRequest>,
)
    requires
        spec_stacks_sorted(a),
        spec_stacks_sorted(b),
        a.len() == b.len(),
        forall|i: int| 0 <= i < a.len() ==> #[trigger] spec_agrees_with_some(a[i], b),
    ensures
        spec_stacks_agree(a, b),
{
    let n = a.len() as int;
    let f = |i: int| choose|j: int| 0 <= j < b.len() && #[trigger] spec_same_stack(a[i], b[j]);
    assert forall|x: int| 0 <= x < n implies 0 <= #[trigger] f(x) < n && spec_same_stack(
        a[x],
        b[f(x)],
    ) by {
        assert(spec_agrees_with_some(a[x], b));
    }
    assert forall|x: int, y: int| 0 <= x < y < n implies #[trigger] f(x) < #[trigger] f(y) by {
        assert(0 <= f(x) < n && spec_same_stack(a[x], b[f(x)]));
        assert(0 <= f(y) < n && spec_same_stack(a[y], b[f(y)]));
        assert(spec_identity_less(a[x], a[y]));
        assert(spec_identity_less(b[f(x)], b[f(y)]));
        if f(y) < f(x) {
            assert(spec_identity_less(b[f(y)], b[f(x)]));
            lemma_identity_order(b[f(x)], b[f(y)], b[f(x)]);
        } else if f(y) == f(x) {
            lemma_identity_order(b[f(x)], b[f(x)], b[f(x)]);
        }
    }
    assert forall|i: int| 0 <= i < n implies #[trigger] spec_same_stack(a[i], b[i]) by {
        lemma_increasing_map_at_least(f, n, i);
        lemma_increasing_map_at_most(f, n, i);
        assert(spec_same_stack(a[i], b[f(i)]));
    }
}

} // verus!
