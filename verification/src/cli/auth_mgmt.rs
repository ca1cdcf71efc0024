//! The registry commands: add, remove, set the default, list.

use vstd::prelude::*;
use vstd::string::StringExecFns;
use crate::cli::arguments::KeycloakCommand;
use crate::keycloak::keycloak_config::new_profile;
use crate::keycloak::keycloak_config::profile_text;
use crate::keycloak::keycloak_config::KeycloakConfig;
use crate::keycloak::keycloak_config::KeycloakConfigView;
use crate::keycloak::keycloak_registry::record_views;
use crate::keycloak::keycloak_registry::KeycloakRegistry;
use crate::keycloak::registry_view::RegistryView;
use crate::keycloak::KeycloakRegistryError;
use crate::keycloak::RegistryFault;
use crate::output::lemma_wrote_nothing;
use crate::output::wrote;
use crate::output::CurlautOutput;

verus! {

/// The listing of the profiles: one entry for each, in their order.
pub open spec fn listing(profiles: Seq<KeycloakConfigView>) -> Seq<char>
    decreases profiles.len(),
{
    if profiles.len() == 0 {
        Seq::empty()
    } else {
        listing(profiles.drop_last()) + profile_text(profiles.last()) + "\n"@
    }
}

/// Whether the command ended with these profiles to write to the registry
/// file.
pub open spec fn saves(
    done: Result<Option<Vec<KeycloakConfig>>, KeycloakRegistryError>,
    profiles: Seq<KeycloakConfigView>,
) -> bool {
    done matches Ok(Some(records)) && record_views(records@) == profiles
}

/// Whether the command failed with this fault.
pub open spec fn fails(
    done: Result<Option<Vec<KeycloakConfig>>, KeycloakRegistryError>,
    fault: RegistryFault,
) -> bool {
    done matches Err(error) && error@ == fault
}

/// What `execute_command` does with the registry that the records give.
pub open spec fn command_done<O: CurlautOutput>(
    command: KeycloakCommand,
    registry: RegistryView,
    done: Result<Option<Vec<KeycloakConfig>>, KeycloakRegistryError>,
    before: &O,
    after: &O,
) -> bool {
    match command {
        KeycloakCommand::Add {
            url,
            alias,
            realm,
            client_id,
            client_secret,
            username,
            password,
            default,
        } => wrote(
            before,
            after,
            "Adding keycloak with alias: "@ + alias@ + "\n"@,
            Seq::empty(),
        ) && match new_profile(
            alias@,
            url@,
            realm@,
            client_id@,
            client_secret@,
            username@,
            password@,
            default,
        ) {
            Err(fault) => fails(done, fault),
            Ok(profile) => match registry.add(profile) {
                Err(fault) => fails(done, fault),
                Ok(added) => saves(done, added.profiles),
            },
        },
        KeycloakCommand::Remove { alias } => wrote(
            before,
            after,
            "Removing keycloak by alias "@ + alias@ + "\n"@,
            Seq::empty(),
        ) && saves(done, registry.remove(alias@).profiles),
        KeycloakCommand::SetDefault { alias } => wrote(
            before,
            after,
            "Set keycloak by default alias "@ + alias@ + "\n"@,
            Seq::empty(),
        ) && match registry.set_default(alias@) {
            Err(fault) => fails(done, fault),
            Ok(changed) => saves(done, changed.profiles),
        },
        KeycloakCommand::List => wrote(before, after, listing(registry.profiles), Seq::empty())
            && done matches Ok(None),
    }
}

/// Writes a line to the normal stream.
fn say<O: CurlautOutput>(label: &str, alias: &str, io: &mut O)
    ensures
        wrote(old(io), final(io), label@ + alias@ + "\n"@, Seq::empty()),
{
    let mut line = label.to_owned();
    line.append(alias);
    line.append("\n");
    io.common(line.as_str());
}

/// Writes the listing of the profiles to the normal stream.
fn list<O: CurlautOutput>(profiles: &Vec<&KeycloakConfig>, io: &mut O)
    ensures
        wrote(
            old(io),
            final(io),
            listing(Seq::new(profiles@.len(), |i: int| profiles@[i]@)),
            Seq::empty(),
        ),
{
    let ghost all = Seq::new(profiles@.len(), |i: int| profiles@[i]@);
    let mut text = String::new();
    let mut i: usize = 0;
    while i < profiles.len()
        invariant
            i <= profiles.len(),
            all == Seq::new(profiles@.len(), |i: int| profiles@[i]@),
            text@ == listing(all.take(i as int)),
        decreases profiles.len() - i,
    {
        proof {
            assert(all.take(i + 1).drop_last() =~= all.take(i as int));
        }
        text.append(profiles[i].to_string().as_str());
        text.append("\n");
        i += 1;
    }
    proof {
        assert(all.take(i as int) =~= all);
    }
    io.common(text.as_str());
}

/// Carries out a registry command on the records of the registry file and
/// hands back the records to write in their place; nothing is to be written
/// after a listing. Records that do not make a registry fail the command
/// before anything is said. Every other failure comes after the line that
/// announces the command.
pub fn execute_command<O: CurlautOutput>(
    command: KeycloakCommand,
    keycloak_configs: Vec<KeycloakConfig>,
    io: &mut O,
) -> (done: Result<Option<Vec<KeycloakConfig>>, KeycloakRegistryError>)
    ensures
        match RegistryView::load(record_views(keycloak_configs@)) {
            Err(fault) => fails(done, fault) && wrote(
                old(io),
                final(io),
                Seq::empty(),
                Seq::empty(),
            ),
            Ok(registry) => command_done(command, registry, done, old(io), final(io)),
        },
{
    proof {
        lemma_wrote_nothing(&*io);
    }
    let mut keycloak_registry = KeycloakRegistry::load_from_file(keycloak_configs)?;
    match &command {
        KeycloakCommand::Add {
            url,
            alias,
            realm,
            client_id,
            client_secret,
            username,
            password,
            default,
        } => {
            say("Adding keycloak with alias: ", alias.as_str(), io);
            let result = KeycloakConfig::new(
                alias.as_str(),
                url.as_str(),
                realm.as_str(),
                client_id.as_str(),
                client_secret.as_str(),
                username.as_str(),
                password.as_str(),
                *default,
            )?;
            keycloak_registry.add_keycloak(result)?;
            Ok(Some(keycloak_registry.save_to_file()))
        },
        KeycloakCommand::Remove { alias } => {
            say("Removing keycloak by alias ", alias.as_str(), io);
            keycloak_registry.remove_keycloak(alias.as_str());
            Ok(Some(keycloak_registry.save_to_file()))
        },
        KeycloakCommand::SetDefault { alias } => {
            say("Set keycloak by default alias ", alias.as_str(), io);
            keycloak_registry.set_default(alias.as_str())?;
            Ok(Some(keycloak_registry.save_to_file()))
        },
        KeycloakCommand::List => {
            let all = keycloak_registry.get_all();
            proof {
                assert(Seq::new(all@.len(), |i: int| all@[i]@) =~= keycloak_registry@.profiles);
            }
            list(&all, io);
            Ok(None)
        },
    }
}

} // verus!
