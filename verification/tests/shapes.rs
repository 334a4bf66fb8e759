use gateway::model::commands::{Hello, RequestGuildData, SubscribeToGuild, SubscriptionAck};
use gateway::model::discord::{Channel, Guild, Member, PartialGuild, Role, User};
use gateway::model::events::Ready;
use uuid::Uuid;

fn user() -> User {
    User { id: "1".into(), username: "u".into(), icon: "i".into(), discriminator: "0001".into() }
}

#[test]
fn commands_hold_their_fields() {
    let hello = Hello { heartbeat: 5, session_id: Uuid::from_u128(1) };
    assert_eq!(hello.clone(), hello);
    assert_ne!(hello, Hello { heartbeat: 6, session_id: Uuid::from_u128(1) });
    let subscribe = SubscribeToGuild { subscribe_to: "42".into() };
    assert_eq!(subscribe.subscribe_to, "42");
    let request = RequestGuildData { guild_id: "42".into() };
    assert_eq!(request.clone(), request);
    let ack = SubscriptionAck { subscribed: true, guild_id: None };
    assert_ne!(ack, SubscriptionAck { subscribed: true, guild_id: Some("42".into()) });
}

#[test]
fn guild_holds_its_fields() {
    let guild = Guild {
        id: "1".into(),
        name: "g".into(),
        icon: "i".into(),
        channels: vec![Channel {
            id: "2".into(),
            name: "c".into(),
            channel_type: 0,
            parent_id: "1".into(),
            position: -1,
            calculated_permissions: u64::MAX,
        }],
        roles: vec![Role { id: "3".into(), name: "r".into(), position: 1, permission: 8, color: 0xff00ff }],
        settings: "{}".into(),
        owner: "4".into(),
        member_count: 10,
        shard: 0,
        authed_user: Member { nickname: None, roles: vec!["3".into()] },
        bot_permissions: 0,
    };
    let copy = guild.clone();
    assert_eq!(copy, guild);
    assert_eq!(copy.channels[0].position, -1);
    assert_eq!(copy.roles[0].color, 0xff00ff);
    assert_eq!(copy.authed_user.roles, vec!["3".to_string()]);
}

#[test]
fn ready_holds_user_and_guilds() {
    let ready = Ready {
        user: user(),
        guilds: vec![PartialGuild { id: "1".into(), name: "g".into(), icon: "i".into() }],
    };
    assert_eq!(ready.clone(), ready);
    assert_eq!(ready.user, user());
    assert_eq!(ready.guilds.len(), 1);
}
