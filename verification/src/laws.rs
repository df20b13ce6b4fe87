//! What holds of the handlers whatever the request: runs against a storage
//! service that keeps email addresses unique.

use vstd::prelude::*;
use crate::auth::{
    ClaimsView, TOKEN_LIFETIME_SECS, checked_claims, created_jwt, invalid_token, reads_back,
    token_claims,
};
use crate::error::AppErrorView;
use crate::models::{
    BlogPostView, CreatePostRequestView, LoginRequestView, RegisterRequestView,
    UpdatePostRequestView, UserView,
};
use crate::oid::{
    bytes_of_hex, hex_of, is_canonical_text, law_parse_undoes_to_hex, law_to_hex_undoes_parse,
};
use crate::password::{accepts, password_matches};
use crate::rules::{
    digest_of, email_in_use, first_step, invalid_credentials, merged, new_user, next_step, owns,
    post_not_found, token_reply,
};
use crate::steps::{ListingView, PendingView, ReplyView, RequestView, StepView};
use crate::storage::EventView;
use crate::storage::ActionView;
use crate::store::{
    Env, Store, find_post, find_user, has_email, has_post, run, serve, stored_post, stored_user,
    updated,
};

verus! {

/// A registration with an email address that no stored user has succeeds,
/// where hashing the password does: the reply is the new user, and the
/// user is stored with the digest as its password. The digest, being one
/// that `hash_password` returned, is not the password, unless the
/// password is a digest of itself.
pub proof fn law_registration_with_a_free_email_succeeds(
    store: Store,
    request: RegisterRequestView,
    env: Env,
)
    requires
        !has_email(store.users, request.email),
        env.digest is Some,
    ensures
        ({
            let (reply, after) = run(first_step(RequestView::Register(request)), store, env, 2);
            let digest = env.digest->Some_0;
            let user = new_user(request, digest);
            let kept = stored_user(user, env.fresh);
            &&& reply == Some(Ok::<ReplyView, AppErrorView>(ReplyView::User(user)))
            &&& after == Store { users: store.users.push(kept), ..store }
            &&& kept.password == digest
            &&& digest_of(request.password, digest) && !digest_of(
                request.password,
                request.password,
            ) ==> kept.password != request.password
        }),
{
    reveal_with_fuel(run, 3);
}

/// One registration of a series: the request, the digest that hashing its
/// password gives, and the identifier that the service assigns to the user.
pub struct Attempt {
    pub request: RegisterRequestView,
    pub digest: Seq<char>,
    pub id: Seq<u8>,
}

/// What the run of one registration of a series depends on.
pub open spec fn env_of(attempt: Attempt, secret: Seq<char>, now: usize) -> Env {
    Env { secret, now, digest: Some(attempt.digest), fresh: attempt.id }
}

/// What the service holds after the first `k` registrations of a series.
pub open spec fn store_after(
    store: Store,
    attempts: Seq<Attempt>,
    secret: Seq<char>,
    now: usize,
    k: nat,
) -> Store
    decreases k,
{
    if k == 0 {
        store
    } else {
        run(
            first_step(RequestView::Register(attempts[k - 1].request)),
            store_after(store, attempts, secret, now, (k - 1) as nat),
            env_of(attempts[k - 1], secret, now),
            2,
        ).1
    }
}

/// After the first `k` registrations of a series, an email address is
/// stored only if it was stored before or one of the `k` brought it.
proof fn lemma_emails_after(
    store: Store,
    attempts: Seq<Attempt>,
    secret: Seq<char>,
    now: usize,
    k: nat,
    email: Seq<char>,
)
    requires
        k <= attempts.len(),
        has_email(store_after(store, attempts, secret, now, k).users, email),
    ensures
        has_email(store.users, email) || exists|j: int|
            0 <= j < k && (#[trigger] attempts[j]).request.email == email,
    decreases k,
{
    if k > 0 {
        reveal_with_fuel(run, 3);
        let before = store_after(store, attempts, secret, now, (k - 1) as nat);
        let after = store_after(store, attempts, secret, now, k);
        let attempt = attempts[k - 1];
        if has_email(before.users, email) {
            lemma_emails_after(store, attempts, secret, now, (k - 1) as nat, email);
        } else {
            let i = choose|i: int| 0 <= i < after.users.len() && (#[trigger] after.users[i]).email
                == email;
            if has_email(before.users, attempt.request.email) {
                assert(after.users == before.users);
            } else {
                assert(after.users == before.users.push(
                    stored_user(new_user(attempt.request, attempt.digest), attempt.id),
                ));
                if i < before.users.len() {
                    assert(before.users[i].email == email);
                }
                assert(attempt.request.email == email);
            }
            assert(attempts[k - 1].request.email == email);
        }
    }
}

/// Of a series of registrations whose email addresses differ from one
/// another and from those stored before, each succeeds, where hashing
/// its password does, and leaves the digest stored, which is not the
/// password, unless the password is a digest of itself.
pub proof fn law_registrations_with_distinct_emails_all_succeed(
    store: Store,
    attempts: Seq<Attempt>,
    secret: Seq<char>,
    now: usize,
    k: int,
)
    requires
        0 <= k < attempts.len(),
        forall|i: int|
            0 <= i < attempts.len() ==> !has_email(
                store.users,
                (#[trigger] attempts[i]).request.email,
            ),
        forall|i: int, j: int|
            0 <= i < j < attempts.len() ==> (#[trigger] attempts[i]).request.email != (
            #[trigger] attempts[j]).request.email,
    ensures
        ({
            let before = store_after(store, attempts, secret, now, k as nat);
            let attempt = attempts[k];
            let (reply, after) = run(
                first_step(RequestView::Register(attempt.request)),
                before,
                env_of(attempt, secret, now),
                2,
            );
            let user = new_user(attempt.request, attempt.digest);
            &&& reply == Some(Ok::<ReplyView, AppErrorView>(ReplyView::User(user)))
            &&& after == store_after(store, attempts, secret, now, (k + 1) as nat)
            &&& after.users == before.users.push(stored_user(user, attempt.id))
            &&& digest_of(attempt.request.password, attempt.digest) && !digest_of(
                attempt.request.password,
                attempt.request.password,
            ) ==> after.users.last().password != attempt.request.password
        }),
{
    let before = store_after(store, attempts, secret, now, k as nat);
    let attempt = attempts[k];
    if has_email(before.users, attempt.request.email) {
        lemma_emails_after(store, attempts, secret, now, k as nat, attempt.request.email);
        let j = choose|j: int| 0 <= j < k && (#[trigger] attempts[j]).request.email
            == attempt.request.email;
        assert(attempts[j].request.email != attempts[k].request.email);
    }
    law_registration_with_a_free_email_succeeds(
        before,
        attempt.request,
        env_of(attempt, secret, now),
    );
}

/// A registration with an email address that a stored user has is a bad
/// request, whatever else it holds, and nothing is stored.
pub proof fn law_second_registration_is_a_bad_request(
    store: Store,
    request: RegisterRequestView,
    env: Env,
)
    requires
        has_email(store.users, request.email),
    ensures
        run(first_step(RequestView::Register(request)), store, env, 2) == (
            Some(Err::<ReplyView, AppErrorView>(email_in_use())),
            store,
        ),
        email_in_use().status() == 400,
{
    reveal_with_fuel(run, 3);
}

/// Of two registrations with one email address that both searched the
/// directory before either stored its user, the first to store succeeds
/// and the second is a bad request: the unique index refuses its user,
/// and the refusal is reported as the search would have reported it.
pub proof fn law_concurrent_registration_is_a_bad_request(
    store: Store,
    first: RegisterRequestView,
    second: RegisterRequestView,
    first_env: Env,
    second_env: Env,
)
    requires
        first.email == second.email,
        !has_email(store.users, first.email),
        first_env.digest is Some,
        second_env.digest is Some,
    ensures
        ({
            let (searched, found_first) = serve(
                store,
                first_step(RequestView::Register(first))->Ask_1,
                first_env.fresh,
            );
            let (searched_again, found_second) = serve(
                searched,
                first_step(RequestView::Register(second))->Ask_1,
                second_env.fresh,
            );
            let first_insert = next_step(
                first_step(RequestView::Register(first))->Ask_0,
                found_first,
                first_env.secret,
                first_env.now,
                first_env.digest,
            );
            let second_insert = next_step(
                first_step(RequestView::Register(second))->Ask_0,
                found_second,
                second_env.secret,
                second_env.now,
                second_env.digest,
            );
            let (reply_first, stored) = run(first_insert, searched_again, first_env, 1);
            let (reply_second, after) = run(second_insert, stored, second_env, 1);
            &&& reply_first == Some(
                Ok::<ReplyView, AppErrorView>(
                    ReplyView::User(new_user(first, first_env.digest->Some_0)),
                ),
            )
            &&& reply_second == Some(Err::<ReplyView, AppErrorView>(email_in_use()))
            &&& after == stored
        }),
{
    reveal_with_fuel(run, 2);
    let user = stored_user(new_user(first, first_env.digest->Some_0), first_env.fresh);
    let stored = Store { users: store.users.push(user), ..store };
    assert(stored.users[store.users.len() as int].email == second.email);
}

/// The claims of a token issued at the second `issued_at` are accepted at
/// every second before the hour is over, so at once, and at none from
/// then on.
pub proof fn law_issued_claims_hold_for_an_hour(subject: Seq<char>, issued_at: usize, now: usize)
    requires
        issued_at + TOKEN_LIFETIME_SECS <= usize::MAX,
    ensures
        ({
            let claims = ClaimsView::issued(subject, issued_at);
            let verdict = checked_claims(Some((Some(claims.sub), Some(claims.exp as u64))), now);
            &&& claims.sub == subject
            &&& claims.live_at(issued_at)
            &&& now < issued_at + TOKEN_LIFETIME_SECS ==> verdict == Ok::<ClaimsView, AppErrorView>(
                claims,
            )
            &&& now >= issued_at + TOKEN_LIFETIME_SECS ==> verdict == Err::<
                ClaimsView,
                AppErrorView,
            >(invalid_token())
        }),
{
}

/// A token that reads back as the claims issued to a subject at the
/// second `issued_at`, as every token does that `create_jwt` returns,
/// verifies at once and until the hour is over, with that subject, and
/// at no second from then on.
pub proof fn law_token_is_valid_for_an_hour(
    secret: Seq<char>,
    subject: Seq<char>,
    issued_at: usize,
    token: Seq<char>,
    now: usize,
)
    requires
        issued_at + TOKEN_LIFETIME_SECS <= usize::MAX,
    ensures
        ({
            let claims = ClaimsView::issued(subject, issued_at);
            let verdict = checked_claims(token_claims(secret, token), now);
            reads_back(secret, token, claims) ==> {
                &&& checked_claims(token_claims(secret, token), issued_at) == Ok::<
                    ClaimsView,
                    AppErrorView,
                >(claims)
                &&& claims.sub == subject
                &&& now < issued_at + TOKEN_LIFETIME_SECS ==> verdict == Ok::<
                    ClaimsView,
                    AppErrorView,
                >(claims)
                &&& now >= issued_at + TOKEN_LIFETIME_SECS ==> verdict == Err::<
                    ClaimsView,
                    AppErrorView,
                >(invalid_token())
            }
        }),
{
}

/// A user that has registered can log in: with the email address and the
/// password of the registration, where the digest that was stored is one
/// that the password passes, as every digest is that `hash_password`
/// returns, the login is answered with the token issued to the text of
/// the identifier that the service gave the user.
pub proof fn law_registered_user_can_log_in(store: Store, request: RegisterRequestView, env: Env)
    requires
        !has_email(store.users, request.email),
        env.digest is Some,
    ensures
        ({
            let registered = run(first_step(RequestView::Register(request)), store, env, 2).1;
            let login = LoginRequestView { email: request.email, password: request.password };
            let user = stored_user(new_user(request, env.digest->Some_0), env.fresh);
            &&& find_user(registered.users, request.email) == Some(user)
            &&& digest_of(request.password, env.digest->Some_0) ==> run(
                first_step(RequestView::Login(login)),
                registered,
                env,
                1,
            ) == (
                match token_reply(created_jwt(env.secret, hex_of(env.fresh), env.now)) {
                    StepView::Finish(reply) => Some(reply),
                    StepView::Ask(_, _) => None,
                },
                registered,
            )
        }),
{
    reveal_with_fuel(run, 3);
    let user = stored_user(new_user(request, env.digest->Some_0), env.fresh);
    let users = store.users.push(user);
    assert(users[store.users.len() as int] == user);
    let found = choose|i: int| 0 <= i < users.len() && (#[trigger] users[i]).email == request.email;
    if found < store.users.len() {
        assert(store.users[found].email == request.email);
    }
}

/// A login with the email address of a stored user and a password that
/// passes the check against the stored digest is answered with the token
/// issued to the text of that user's identifier, and stores nothing.
pub proof fn law_login_issues_a_token_to_the_user(
    store: Store,
    request: LoginRequestView,
    user: UserView,
    id: Seq<u8>,
    env: Env,
)
    requires
        find_user(store.users, request.email) == Some(user),
        user.id == Some(id),
    ensures
        password_matches(request.password, user.password) == Some(true) ==> run(
            first_step(RequestView::Login(request)),
            store,
            env,
            1,
        ) == (
            match token_reply(created_jwt(env.secret, hex_of(id), env.now)) {
                StepView::Finish(reply) => Some(reply),
                StepView::Ask(_, _) => None,
            },
            store,
        ),
        token_reply(created_jwt(env.secret, hex_of(id), env.now)) is Finish,
{
    reveal_with_fuel(run, 3);
}

/// A login with an unknown email address and a login with a wrong
/// password fail alike: with the same kind of failure and the same message.
pub proof fn law_login_failures_are_alike(
    store: Store,
    unknown: LoginRequestView,
    wrong: LoginRequestView,
    user: UserView,
    env: Env,
)
    requires
        !has_email(store.users, unknown.email),
        find_user(store.users, wrong.email) == Some(user),
    ensures
        run(first_step(RequestView::Login(unknown)), store, env, 1) == (
            Some(Err::<ReplyView, AppErrorView>(invalid_credentials())),
            store,
        ),
        !accepts(password_matches(wrong.password, user.password)) ==> run(
            first_step(RequestView::Login(wrong)),
            store,
            env,
            1,
        ) == run(first_step(RequestView::Login(unknown)), store, env, 1),
        invalid_credentials().status() == 401,
{
    reveal_with_fuel(run, 3);
}

/// A post that one identity created can be changed by no other. The
/// update and the deletion that another identity asks for fail as not
/// authorized, and the service holds afterwards what it held before, the
/// post with its title and content among it.
///
/// The creating identity is the text of an identifier, as any identity
/// is that a token of this service carries.
pub proof fn law_only_the_author_changes_a_post(
    store: Store,
    author: Seq<char>,
    other: Seq<char>,
    body: CreatePostRequestView,
    update: UpdatePostRequestView,
    env: Env,
)
    requires
        is_canonical_text(author),
        other != author,
        env.fresh.len() == 12,
        !has_post(store.posts, env.fresh),
    ensures
        ({
            let (created, holding) = run(
                first_step(RequestView::CreatePost(author, body)),
                store,
                env,
                1,
            );
            let post = BlogPostView {
                id: None,
                title: body.title,
                content: body.content,
                author_id: bytes_of_hex(author),
            };
            let id = hex_of(env.fresh);
            &&& created == Some(Ok::<ReplyView, AppErrorView>(ReplyView::Post(post)))
            &&& holding.posts == store.posts.push(stored_post(post, env.fresh))
            &&& run(first_step(RequestView::UpdatePost(other, id, update)), holding, env, 3) == (
                Some(
                    Err::<ReplyView, AppErrorView>(
                        AppErrorView::Auth("Not authorized to update this post"@),
                    ),
                ),
                holding,
            )
            &&& run(first_step(RequestView::DeletePost(other, id)), holding, env, 2) == (
                Some(
                    Err::<ReplyView, AppErrorView>(
                        AppErrorView::Auth("Not authorized to delete this post"@),
                    ),
                ),
                holding,
            )
        }),
{
    reveal_with_fuel(run, 4);
    law_to_hex_undoes_parse(author);
    law_parse_undoes_to_hex(env.fresh);
    let post = BlogPostView {
        id: None,
        title: body.title,
        content: body.content,
        author_id: bytes_of_hex(author),
    };
    let kept = stored_post(post, env.fresh);
    let holding = Store { posts: store.posts.push(kept), ..store };
    let last = store.posts.len() as int;
    assert(holding.posts[last] == kept);
    assert(has_post(holding.posts, env.fresh));
    let found = choose|i: int| 0 <= i < holding.posts.len() && (#[trigger] holding.posts[i]).id
        == Some(env.fresh);
    if found < last {
        assert(store.posts[found].id == Some(env.fresh));
    }
    assert(find_post(holding.posts, env.fresh) == Some(kept));
}

/// An update that the author of a post asks for writes the fields that
/// the request supplies and keeps the others: the reply is the post with
/// its title and content merged, and nothing else of what is stored changes.
pub proof fn law_update_by_the_author_merges(
    store: Store,
    caller: Seq<char>,
    id: Seq<u8>,
    update: UpdatePostRequestView,
    env: Env,
)
    requires
        id.len() == 12,
        find_post(store.posts, id) matches Some(post) && owns(caller, post),
    ensures
        ({
            let post = find_post(store.posts, id)->Some_0;
            let title = merged(update.title, post.title);
            let content = merged(update.content, post.content);
            let (reply, after) = run(
                first_step(RequestView::UpdatePost(caller, hex_of(id), update)),
                store,
                env,
                3,
            );
            &&& reply matches Some(Ok(ReplyView::Post(changed)))
            &&& changed.id == Some(id)
            &&& changed.title == title
            &&& changed.content == content
            &&& after == Store {
                posts: store.posts.map_values(|p: BlogPostView| updated(p, id, title, content)),
                ..store
            }
        }),
{
    reveal_with_fuel(run, 4);
    law_parse_undoes_to_hex(id);
    let post = find_post(store.posts, id)->Some_0;
    let title = merged(update.title, post.title);
    let content = merged(update.content, post.content);
    let posts = store.posts.map_values(|p: BlogPostView| updated(p, id, title, content));
    let at = choose|i: int|
        0 <= i < store.posts.len() && (#[trigger] store.posts[i]).id == Some(id);
    assert(posts[at].id == Some(id));
    assert(has_post(posts, id));
    let found = choose|i: int| 0 <= i < posts.len() && (#[trigger] posts[i]).id == Some(id);
    assert(posts[found] == updated(store.posts[found], id, title, content));
}

/// A deletion that the author of a post asks for removes the post: the
/// reply has no content, and a reading of the post finds nothing afterwards.
pub proof fn law_deleted_post_is_gone(store: Store, caller: Seq<char>, id: Seq<u8>, env: Env)
    requires
        id.len() == 12,
        find_post(store.posts, id) matches Some(post) && owns(caller, post),
    ensures
        ({
            let (reply, after) = run(
                first_step(RequestView::DeletePost(caller, hex_of(id))),
                store,
                env,
                2,
            );
            &&& reply == Some(Ok::<ReplyView, AppErrorView>(ReplyView::NoContent))
            &&& after.users == store.users
            &&& !has_post(after.posts, id)
            &&& run(first_step(RequestView::GetPost(hex_of(id))), after, env, 1) == (
                Some(Err::<ReplyView, AppErrorView>(post_not_found())),
                after,
            )
        }),
{
    reveal_with_fuel(run, 3);
    law_parse_undoes_to_hex(id);
    let keep = |p: BlogPostView| p.id != Some(id);
    let left = store.posts.filter(keep);
    assert forall|i: int| 0 <= i < left.len() implies (#[trigger] left[i]).id != Some(id) by {
        store.posts.lemma_filter_pred(keep, i);
    }
}

/// Reading the open cursor to its end appends the posts that it has not
/// yet handed out to those already read.
proof fn lemma_cursor_is_read_to_its_end(
    store: Store,
    read: Seq<BlogPostView>,
    env: Env,
    fuel: nat,
)
    requires
        store.cursor <= store.posts.len(),
        fuel > store.posts.len() - store.cursor,
    ensures
        run(
            StepView::Ask(PendingView::GetPosts(ListingView::Next(read)), ActionView::NextPost),
            store,
            env,
            fuel,
        ) == (
            Some(
                Ok::<ReplyView, AppErrorView>(
                    ReplyView::Posts(
                        read + store.posts.subrange(store.cursor as int, store.posts.len() as int),
                    ),
                ),
            ),
            Store { cursor: store.posts.len(), ..store },
        ),
    decreases store.posts.len() - store.cursor,
{
    reveal_with_fuel(run, 2);
    let rest = store.posts.subrange(store.cursor as int, store.posts.len() as int);
    if store.cursor < store.posts.len() {
        let next = Store { cursor: store.cursor + 1, ..store };
        let post = store.posts[store.cursor as int];
        lemma_cursor_is_read_to_its_end(next, read.push(post), env, (fuel - 1) as nat);
        assert(read.push(post) + store.posts.subrange(
            next.cursor as int,
            store.posts.len() as int,
        ) =~= read + rest);
    } else {
        assert(read + rest =~= read);
    }
}

/// The listing replies every stored post, in the order of the cursor.
pub proof fn law_listing_returns_every_post(store: Store, env: Env)
    ensures
        run(first_step(RequestView::GetPosts), store, env, store.posts.len() + 2).0 == Some(
            Ok::<ReplyView, AppErrorView>(ReplyView::Posts(store.posts)),
        ),
{
    reveal_with_fuel(run, 2);
    let opened = Store { cursor: 0, ..store };
    lemma_cursor_is_read_to_its_end(opened, Seq::empty(), env, store.posts.len() + 1);
    assert(Seq::<BlogPostView>::empty() + store.posts.subrange(0, store.posts.len() as int)
        =~= store.posts);
}

/// A handler stays on its route, and ends it, where it succeeds, with
/// the kind of reply that the route answers with.
pub proof fn law_handler_stays_on_its_route(
    pending: PendingView,
    event: EventView,
    secret: Seq<char>,
    now: usize,
    digest: Option<Seq<char>>,
)
    ensures
        match next_step(pending, event, secret, now, digest) {
            StepView::Ask(next, _) => next.route() == pending.route(),
            StepView::Finish(Ok(reply)) => reply.fits(pending.route()),
            StepView::Finish(Err(_)) => true,
        },
{
}

/// The reply to a request that succeeds is of the kind that its route
/// answers with, however the storage service answers meanwhile.
pub proof fn law_reply_fits_the_request(request: RequestView, store: Store, env: Env, fuel: nat)
    ensures
        run(first_step(request), store, env, fuel).0 matches Some(Ok(reply)) ==> reply.fits(
            request.route(),
        ),
{
    match first_step(request) {
        StepView::Ask(pending, action) => {
            lemma_run_stays_on_its_route(pending, action, store, env, fuel);
        },
        StepView::Finish(_) => {
            reveal_with_fuel(run, 1);
        },
    }
}

proof fn lemma_run_stays_on_its_route(
    pending: PendingView,
    action: ActionView,
    store: Store,
    env: Env,
    fuel: nat,
)
    ensures
        run(StepView::Ask(pending, action), store, env, fuel).0 matches Some(Ok(reply))
            ==> reply.fits(pending.route()),
    decreases fuel,
{
    reveal_with_fuel(run, 2);
    if fuel > 0 {
        let (next, event) = serve(store, action, env.fresh);
        law_handler_stays_on_its_route(pending, event, env.secret, env.now, env.digest);
        match next_step(pending, event, env.secret, env.now, env.digest) {
            StepView::Ask(waiting, asked) => {
                lemma_run_stays_on_its_route(waiting, asked, next, env, (fuel - 1) as nat);
            },
            StepView::Finish(_) => {},
        }
    }
}

/// No handler asks for a post to be changed or removed but on behalf of
/// its owner: the handler had the post loaded, and the caller's identity
/// is the text of the identifier of the post's author.
pub proof fn law_only_the_owner_writes_to_a_post(
    pending: PendingView,
    event: EventView,
    secret: Seq<char>,
    now: usize,
    digest: Option<Seq<char>>,
)
    ensures
        ({
            let step = next_step(pending, event, secret, now, digest);
            let changes = step matches StepView::Ask(_, action) && (action is UpdatePost
                || action is DeletePost);
            changes ==> {
                &&& pending.caller() is Some
                &&& event matches EventView::Post(Some(post))
                &&& owns(pending.caller()->Some_0, post)
            }
        }),
{
}

/// An update leaves every post with the identifier and the author that it had.
pub proof fn law_update_keeps_the_author(
    store: Store,
    id: Seq<u8>,
    title: Seq<char>,
    content: Seq<char>,
    fresh: Seq<u8>,
    i: int,
)
    requires
        0 <= i < store.posts.len(),
    ensures
        ({
            let after = serve(store, ActionView::UpdatePost { id, title, content }, fresh).0;
            &&& after.posts.len() == store.posts.len()
            &&& after.posts[i].id == store.posts[i].id
            &&& after.posts[i].author_id == store.posts[i].author_id
            &&& after.users == store.users
        }),
{
}

} // verus!
